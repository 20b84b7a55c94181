pub mod cliprdr;
pub use cliprdr::{
    CliprdrClientContext, CliprdrFormat, CliprdrHandler, FormatDataRequest, FormatDataResponse,
    FormatEntry, FormatList, FormatListResponse, GeneralCapabilitySet,
};

pub mod context;
pub use context::{Action, Channel, Context, Handler, TeardownStep, VerifyCertificateResult};

pub mod custom;
pub use custom::Custom;

pub mod disp;
pub use disp::DispClientContext;

pub mod encomsp;
pub use encomsp::{EncomspClientContext, EncomspHandler};

pub mod pub_sub;
pub use pub_sub::{
    EventArgs, EventChannelConnected, EventChannelDisconnected, PubSub, PubSubEvent, PubSubHandle,
    PubSubHandler,
};

pub mod rdpei;
pub use rdpei::{Contact, RdpeiClientContext};

pub mod rdpgfx;
pub use rdpgfx::RdpgfxClientContext;

pub mod video;
pub use video::{GeometryClientContext, VideoClientContext};
