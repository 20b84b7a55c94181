use vstd::prelude::*;
use vstd::utf8::{encode_utf8, encode_utf8_decode_utf8, encode_utf8_valid_utf8};

use crate::channels::cliprdr::{
    Format, GeneralCapabilities, CB_CAPSTYPE_GENERAL, CB_CAPSTYPE_GENERAL_LEN, CB_FORMAT_BY_NAME,
    CB_FORMAT_LIST, CB_FORMAT_LIST_RESPONSE, CB_RESPONSE_FAIL, CB_RESPONSE_OK,
};
use crate::convention::Slot;
use crate::error::RdpError;
use crate::native::NativeRef;
use crate::client::custom::Custom;
use crate::text::{c_string, decode_lossy, is_c_string, text_of_bytes};

verus! {

/// A clipboard format as applications see it: a fixed identifier, a
/// registered name, or both.
#[derive(Debug, PartialEq)]
pub struct CliprdrFormat {
    pub id: Option<Format>,
    pub name: Option<String>,
}

impl View for CliprdrFormat {
    type V = (Option<Format>, Option<Seq<char>>);

    open spec fn view(&self) -> (Option<Format>, Option<Seq<char>>) {
        (
            self.id,
            match self.name {
                Some(n) => Some(n@),
                None => None,
            },
        )
    }
}

/// A clipboard format as it crosses to the native side: a numeric identifier
/// and the bytes of a C string, without its closing NUL.
#[derive(Debug, PartialEq, Eq)]
pub struct FormatEntry {
    pub format_id: u32,
    pub format_name: Option<Vec<u8>>,
}

impl View for FormatEntry {
    type V = (u32, Option<Seq<u8>>);

    open spec fn view(&self) -> (u32, Option<Seq<u8>>) {
        (
            self.format_id,
            match self.format_name {
                Some(n) => Some(n@),
                None => None,
            },
        )
    }
}

/// Whether a format can be sent: its name, if it has one, holds no NUL.
pub open spec fn sendable(format: (Option<Format>, Option<Seq<char>>)) -> bool {
    match format.1 {
        Some(n) => forall|i: int| 0 <= i < encode_utf8(n).len() ==> encode_utf8(n)[i] != 0,
        None => true,
    }
}

/// The native form of a format: a missing identifier is written as
/// `CB_FORMAT_BY_NAME`, a name as its UTF-8 bytes.
pub open spec fn sent_entry(format: (Option<Format>, Option<Seq<char>>)) -> (u32, Option<Seq<u8>>) {
    (
        match format.0 {
            Some(id) => id.spec_code(),
            None => CB_FORMAT_BY_NAME,
        },
        match format.1 {
            Some(n) => Some(encode_utf8(n)),
            None => None,
        },
    )
}

/// The format that a native entry stands for: the identifier if it is a known
/// one, and the name decoded leniently.
pub open spec fn received_format(entry: (u32, Option<Seq<u8>>)) -> (
    Option<Format>,
    Option<Seq<char>>,
) {
    (
        Format::of_code(entry.0),
        match entry.1 {
            Some(b) => Some(text_of_bytes(b)),
            None => None,
        },
    )
}

impl FormatEntry {
    /// Marshals one format for sending. A name cannot cross to the native
    /// side if it holds a NUL; the error tells where the first one stands.
    pub fn from_format(format: &CliprdrFormat) -> (ret: Result<FormatEntry, RdpError>)
        ensures
            ret is Ok <==> sendable(format@),
            ret matches Ok(e) ==> e@ == sent_entry(format@),
            ret matches Err(err) ==> format@.1 is Some && is_c_string(
                encode_utf8(format@.1->0),
                Err(err),
            ),
    {
        let format_id: u32 = match &format.id {
            Some(id) => id.code(),
            None => CB_FORMAT_BY_NAME,
        };
        let format_name: Option<Vec<u8>> = match &format.name {
            Some(name) => match c_string(name.as_str()) {
                Ok(bytes) => Some(bytes),
                Err(err) => {
                    proof {
                        let bytes = encode_utf8(format@.1->0);
                        let p = err->NulError_0;
                        assert(bytes[p as int] == 0);
                    }
                    return Err(err);
                },
            },
            None => None,
        };
        Ok(FormatEntry { format_id, format_name })
    }

    /// Reads one format that the native side handed over.
    pub fn to_format(&self) -> (ret: CliprdrFormat)
        ensures
            ret@ == received_format(self@),
    {
        let name: Option<String> = match &self.format_name {
            Some(bytes) => Some(decode_lossy(bytes.as_slice())),
            None => None,
        };
        let id: Option<Format> = match Format::try_from(self.format_id) {
            Ok(f) => Some(f),
            Err(_) => None,
        };
        CliprdrFormat { id, name }
    }
}

/// The list of formats that one side of the clipboard offers.
#[derive(Debug, PartialEq, Eq)]
pub struct FormatList {
    pub msg_type: u16,
    pub msg_flags: u16,
    pub formats: Vec<FormatEntry>,
}

impl FormatList {
    /// The message that announces `formats` to the server. It cannot be made
    /// if one of the names holds a NUL: the error is that of the first such
    /// format, and tells where the first NUL of its name stands.
    pub fn new(formats: &[CliprdrFormat]) -> (ret: Result<FormatList, RdpError>)
        ensures
            ret is Ok <==> forall|i: int|
                0 <= i < formats@.len() ==> sendable(#[trigger] formats@[i]@),
            ret matches Ok(list) ==> {
                &&& list.msg_type == CB_FORMAT_LIST
                &&& list.msg_flags == CB_RESPONSE_OK
                &&& list.formats@.len() == formats@.len()
                &&& forall|i: int|
                    0 <= i < formats@.len() ==> (#[trigger] list.formats@[i])@ == sent_entry(
                        formats@[i]@,
                    )
            },
            ret matches Err(err) ==> exists|k: int|
                {
                    &&& 0 <= k < formats@.len()
                    &&& forall|j: int| 0 <= j < k ==> sendable(#[trigger] formats@[j]@)
                    &&& (#[trigger] formats@[k])@.1 is Some
                    &&& is_c_string(encode_utf8(formats@[k]@.1->0), Err(err))
                },
    {
        let mut entries: Vec<FormatEntry> = Vec::new();
        let mut i: usize = 0;
        while i < formats.len()
            invariant
                i <= formats@.len(),
                entries@.len() == i,
                forall|k: int| 0 <= k < i ==> sendable(#[trigger] formats@[k]@),
                forall|k: int|
                    0 <= k < i ==> (#[trigger] entries@[k])@ == sent_entry(formats@[k]@),
            decreases formats@.len() - i,
        {
            match FormatEntry::from_format(&formats[i]) {
                Ok(entry) => {
                    entries.push(entry);
                },
                Err(err) => {
                    assert(!sendable(formats@[i as int]@));
                    assert(formats@[i as int]@.1 is Some && is_c_string(
                        encode_utf8(formats@[i as int]@.1->0),
                        Err(err),
                    ));
                    return Err(err);
                },
            }
            i += 1;
        }
        Ok(FormatList { msg_type: CB_FORMAT_LIST, msg_flags: CB_RESPONSE_OK, formats: entries })
    }

    /// The number of formats as the native header counts them, in 32 bits.
    pub fn num_formats(&self) -> (ret: u32)
        ensures
            ret == self.formats@.len() as u32,
    {
        #[verifier::truncate]
        (self.formats.len() as u32)
    }

    /// The formats of a list that the server sent, in their order.
    pub fn to_formats(&self) -> (ret: Vec<CliprdrFormat>)
        ensures
            ret@.len() == self.formats@.len(),
            forall|i: int|
                0 <= i < ret@.len() ==> (#[trigger] ret@[i])@ == received_format(
                    self.formats@[i]@,
                ),
    {
        let mut formats: Vec<CliprdrFormat> = Vec::new();
        let mut i: usize = 0;
        while i < self.formats.len()
            invariant
                i <= self.formats@.len(),
                formats@.len() == i,
                forall|k: int|
                    0 <= k < i ==> (#[trigger] formats@[k])@ == received_format(
                        self.formats@[k]@,
                    ),
            decreases self.formats@.len() - i,
        {
            formats.push(self.formats[i].to_format());
            i += 1;
        }
        formats
    }
}

/// A format that was sent and comes back unchanged is read as it was
/// written: the same identifier, or none, and the same name, or none.
pub proof fn format_round_trip(format: (Option<Format>, Option<Seq<char>>))
    ensures
        received_format(sent_entry(format)) == format,
{
    match format.1 {
        Some(n) => {
            encode_utf8_valid_utf8(n);
            encode_utf8_decode_utf8(n);
        },
        None => {},
    }
    match format.0 {
        Some(id) => {
            Format::of_code_inverts_code(id, 0);
        },
        None => {},
    }
}

/// A list of formats that was sent and comes back unchanged is read as it was
/// written.
pub proof fn format_list_round_trip(formats: Seq<(Option<Format>, Option<Seq<char>>)>)
    ensures
        formats.map_values(|f: (Option<Format>, Option<Seq<char>>)| sent_entry(f)).map_values(
            |e: (u32, Option<Seq<u8>>)| received_format(e),
        ) == formats,
{
    let sent = formats.map_values(|f: (Option<Format>, Option<Seq<char>>)| sent_entry(f));
    let back = sent.map_values(|e: (u32, Option<Seq<u8>>)| received_format(e));
    assert forall|i: int| 0 <= i < formats.len() implies back[i] == formats[i] by {
        format_round_trip(formats[i]);
    }
    assert(back =~= formats);
}

/// The general capability set, field for field as the protocol lays it out.
#[derive(Clone, Copy, Debug, PartialEq, Eq, Structural)]
pub struct GeneralCapabilitySet {
    pub capability_set_type: u16,
    pub capability_set_length: u16,
    pub version: u32,
    pub general_flags: u32,
}

/// The 16-bit number that two bytes spell, low byte first.
pub open spec fn u16_le(b0: u8, b1: u8) -> u16 {
    (b0 as int + 256 * (b1 as int)) as u16
}

/// The 32-bit number that four bytes spell, low byte first.
pub open spec fn u32_le(b0: u8, b1: u8, b2: u8, b3: u8) -> u32 {
    (b0 as int + 256 * (b1 as int) + 65536 * (b2 as int) + 16777216 * (b3 as int)) as u32
}

/// The bytes of a 16-bit number, low byte first.
pub open spec fn le_bytes_u16(v: u16) -> Seq<u8> {
    seq![(v % 256) as u8, (v / 256) as u8]
}

/// The bytes of a 32-bit number, low byte first.
pub open spec fn le_bytes_u32(v: u32) -> Seq<u8> {
    seq![
        (v % 256) as u8,
        (v / 256 % 256) as u8,
        (v / 65536 % 256) as u8,
        (v / 16777216) as u8,
    ]
}

/// The flags of the first usable general capability set among the first
/// `count` records of `buffer`. Each record opens with its type and its
/// length, two bytes each, the length counting those four bytes too. A record
/// of another type, or a general one too short to hold its flags, is skipped
/// by its length. The scan ends without a result where the records run out,
/// or where a record claims to be shorter than its own header or longer than
/// what is left of the buffer.
pub open spec fn scan_general(buffer: Seq<u8>, count: nat) -> Option<u32>
    decreases count,
{
    if count == 0 || buffer.len() < 4 {
        None
    } else {
        let set_type = u16_le(buffer[0], buffer[1]);
        let set_length = u16_le(buffer[2], buffer[3]);
        if set_length < 4 || set_length > buffer.len() {
            None
        } else if set_type == CB_CAPSTYPE_GENERAL && set_length >= CB_CAPSTYPE_GENERAL_LEN {
            Some(u32_le(buffer[8], buffer[9], buffer[10], buffer[11]))
        } else {
            scan_general(buffer.skip(set_length as int), (count - 1) as nat)
        }
    }
}

fn read_u16_le(buffer: &[u8], at: usize) -> (ret: u16)
    requires
        at + 2 <= buffer@.len(),
    ensures
        ret == u16_le(buffer@[at as int], buffer@[at + 1]),
{
    let b0: u16 = buffer[at] as u16;
    let b1: u16 = buffer[at + 1] as u16;
    b0 + 256 * b1
}

fn read_u32_le(buffer: &[u8], at: usize) -> (ret: u32)
    requires
        at + 4 <= buffer@.len(),
    ensures
        ret == u32_le(buffer@[at as int], buffer@[at + 1], buffer@[at + 2], buffer@[at + 3]),
{
    let b0: u32 = buffer[at] as u32;
    let b1: u32 = buffer[at + 1] as u32;
    let b2: u32 = buffer[at + 2] as u32;
    let b3: u32 = buffer[at + 3] as u32;
    b0 + 256 * b1 + 65536 * b2 + 16777216 * b3
}

impl GeneralCapabilitySet {
    /// The set that announces `capabilities`, in version 2 of the protocol.
    pub fn new(capabilities: &GeneralCapabilities) -> (ret: GeneralCapabilitySet)
        ensures
            ret == (GeneralCapabilitySet {
                capability_set_type: CB_CAPSTYPE_GENERAL,
                capability_set_length: CB_CAPSTYPE_GENERAL_LEN,
                version: 2,
                general_flags: capabilities.spec_bits(),
            }),
    {
        GeneralCapabilitySet {
            capability_set_type: CB_CAPSTYPE_GENERAL,
            capability_set_length: CB_CAPSTYPE_GENERAL_LEN,
            version: 2,
            general_flags: capabilities.bits(),
        }
    }

    /// The record as bytes: type, length, version and flags, each low byte
    /// first.
    pub open spec fn spec_to_bytes(&self) -> Seq<u8> {
        le_bytes_u16(self.capability_set_type) + le_bytes_u16(self.capability_set_length)
            + le_bytes_u32(self.version) + le_bytes_u32(self.general_flags)
    }

    pub fn to_bytes(&self) -> (ret: Vec<u8>)
        ensures
            ret@ == self.spec_to_bytes(),
            ret@.len() == 12,
    {
        let mut out: Vec<u8> = Vec::new();
        out.push((self.capability_set_type % 256) as u8);
        out.push((self.capability_set_type / 256) as u8);
        out.push((self.capability_set_length % 256) as u8);
        out.push((self.capability_set_length / 256) as u8);
        out.push((self.version % 256) as u8);
        out.push((self.version / 256 % 256) as u8);
        out.push((self.version / 65536 % 256) as u8);
        out.push((self.version / 16777216) as u8);
        out.push((self.general_flags % 256) as u8);
        out.push((self.general_flags / 256 % 256) as u8);
        out.push((self.general_flags / 65536 % 256) as u8);
        out.push((self.general_flags / 16777216) as u8);
        assert(out@ =~= self.spec_to_bytes());
        out
    }
}

/// Finds the general capabilities in what the server announced: `buffer`
/// holds the capability sets back to back, `count` says how many there are.
/// Bits that have no meaning are dropped from the flags.
pub fn general_capabilities(buffer: &[u8], count: u32) -> (ret: Option<GeneralCapabilities>)
    ensures
        match scan_general(buffer@, count as nat) {
            Some(flags) => ret matches Some(c) && c.spec_bits() == flags
                & GeneralCapabilities::ALL,
            None => ret is None,
        },
{
    let mut at: usize = 0;
    let mut left: u32 = count;
    assert(buffer@.skip(0) =~= buffer@);
    while left > 0 && buffer.len() - at >= 4
        invariant
            at <= buffer@.len(),
            scan_general(buffer@, count as nat) == scan_general(
                buffer@.skip(at as int),
                left as nat,
            ),
        decreases left,
    {
        let ghost rest = buffer@.skip(at as int);
        assert(rest.len() == buffer@.len() - at);
        assert(rest[0] == buffer@[at as int] && rest[1] == buffer@[at + 1] && rest[2] == buffer@[at
            + 2] && rest[3] == buffer@[at + 3]);
        let set_type = read_u16_le(buffer, at);
        let set_length = read_u16_le(buffer, at + 2);
        if set_length < 4 || set_length as usize > buffer.len() - at {
            return None;
        }
        if set_type == CB_CAPSTYPE_GENERAL && set_length >= CB_CAPSTYPE_GENERAL_LEN {
            assert(rest[8] == buffer@[at + 8] && rest[9] == buffer@[at + 9] && rest[10]
                == buffer@[at + 10] && rest[11] == buffer@[at + 11]);
            let flags = read_u32_le(buffer, at + 8);
            return Some(GeneralCapabilities::from_bits_truncate(flags));
        }
        assert(rest.skip(set_length as int) == buffer@.skip(at + set_length));
        at += set_length as usize;
        left -= 1;
    }
    assert(buffer@.skip(at as int).len() == buffer@.len() - at);
    None
}

/// A record that is well formed and is no usable general capability set is
/// passed over: the scan goes on behind it as if it had started there.
pub proof fn scan_skips_other_record(record: Seq<u8>, rest: Seq<u8>, count: nat)
    requires
        4 <= record.len() <= u16::MAX,
        u16_le(record[2], record[3]) == record.len(),
        u16_le(record[0], record[1]) != CB_CAPSTYPE_GENERAL || record.len()
            < CB_CAPSTYPE_GENERAL_LEN,
    ensures
        scan_general(record + rest, count + 1) == scan_general(rest, count),
{
    let buffer = record + rest;
    assert(buffer[0] == record[0] && buffer[1] == record[1] && buffer[2] == record[2] && buffer[3]
        == record[3]);
    assert(buffer.skip(record.len() as int) =~= rest);
}

/// A general capability set at the head of the buffer is found, whatever
/// follows it.
pub proof fn scan_finds_general_record(set: GeneralCapabilitySet, rest: Seq<u8>, count: nat)
    requires
        set.capability_set_type == CB_CAPSTYPE_GENERAL,
        set.capability_set_length == CB_CAPSTYPE_GENERAL_LEN,
        count > 0,
    ensures
        scan_general(set.spec_to_bytes() + rest, count) == Some(set.general_flags),
{
    let record = set.spec_to_bytes();
    let buffer = record + rest;
    assert(record.len() == 12);
    assert forall|i: int| 0 <= i < 12 implies buffer[i] == record[i] by {}
    assert(buffer[0] == record[0] && buffer[1] == record[1] && buffer[2] == record[2] && buffer[3]
        == record[3]);
    assert(buffer[8] == record[8] && buffer[9] == record[9] && buffer[10] == record[10]
        && buffer[11] == record[11]);
    let v = set.general_flags;
    assert(u32_le(
        (v % 256) as u8,
        (v / 256 % 256) as u8,
        (v / 65536 % 256) as u8,
        (v / 16777216) as u8,
    ) == v);
}

/// An unknown record followed by the general capability set: the scan skips
/// the first and reads the flags of the second.
pub proof fn scan_skips_unknown_then_finds_general(
    unknown: Seq<u8>,
    set: GeneralCapabilitySet,
    rest: Seq<u8>,
    count: nat,
)
    requires
        4 <= unknown.len() <= u16::MAX,
        u16_le(unknown[2], unknown[3]) == unknown.len(),
        u16_le(unknown[0], unknown[1]) != CB_CAPSTYPE_GENERAL,
        set.capability_set_type == CB_CAPSTYPE_GENERAL,
        set.capability_set_length == CB_CAPSTYPE_GENERAL_LEN,
        count >= 2,
    ensures
        scan_general(unknown + (set.spec_to_bytes() + rest), count) == Some(set.general_flags),
{
    scan_skips_other_record(unknown, set.spec_to_bytes() + rest, (count - 1) as nat);
    scan_finds_general_record(set, rest, (count - 1) as nat);
}

/// The answer to a format list.
#[derive(Clone, Copy, Debug, PartialEq, Eq, Structural)]
pub struct FormatListResponse {
    pub msg_type: u16,
    pub msg_flags: u16,
}

impl FormatListResponse {
    /// The answer that accepts the list, or the one that refuses it.
    pub fn new(ok: bool) -> (ret: FormatListResponse)
        ensures
            ret.msg_type == CB_FORMAT_LIST_RESPONSE,
            ret.msg_flags == if ok {
                CB_RESPONSE_OK
            } else {
                CB_RESPONSE_FAIL
            },
    {
        FormatListResponse {
            msg_type: CB_FORMAT_LIST_RESPONSE,
            msg_flags: if ok {
                CB_RESPONSE_OK
            } else {
                CB_RESPONSE_FAIL
            },
        }
    }
}

/// The request for the clipboard's content in one format.
#[derive(Clone, Copy, Debug, PartialEq, Eq, Structural)]
pub struct FormatDataRequest {
    pub requested_format_id: u32,
}

impl FormatDataRequest {
    pub fn new(format: Format) -> (ret: FormatDataRequest)
        ensures
            ret.requested_format_id == format.spec_code(),
    {
        FormatDataRequest { requested_format_id: format.code() }
    }
}

/// The header of the answer to a data request. The data itself stays where
/// the caller has it; the header only says how long it is.
#[derive(Clone, Copy, Debug, PartialEq, Eq, Structural)]
pub struct FormatDataResponse {
    pub msg_flags: u16,
    pub data_len: u32,
}

impl FormatDataResponse {
    /// The header for `data`, or the one that reports failure where there is
    /// no data. Data too long to be counted in 32 bits is refused.
    pub fn new(data: Option<&[u8]>) -> (ret: Result<FormatDataResponse, RdpError>)
        ensures
            match data {
                Some(d) => if d@.len() <= u32::MAX {
                    ret == Ok::<FormatDataResponse, RdpError>(
                        FormatDataResponse { msg_flags: CB_RESPONSE_OK, data_len: d@.len() as u32 },
                    )
                } else {
                    ret matches Err(RdpError::TryFromIntError(_))
                },
                None => ret == Ok::<FormatDataResponse, RdpError>(
                    FormatDataResponse { msg_flags: CB_RESPONSE_FAIL, data_len: 0 },
                ),
            },
    {
        match data {
            Some(d) => match u32::try_from(d.len()) {
                Ok(data_len) => Ok(FormatDataResponse { msg_flags: CB_RESPONSE_OK, data_len }),
                Err(e) => Err(RdpError::TryFromIntError(e)),
            },
            None => Ok(FormatDataResponse { msg_flags: CB_RESPONSE_FAIL, data_len: 0 }),
        }
    }
}

/// A clipboard channel's native context, as far as this side needs to know
/// it: where it is, who is to release the handler, and whether a handler is
/// registered.
#[derive(Debug)]
pub struct CliprdrClientContext {
    inner: NativeRef,
    owned: bool,
    registered: bool,
}

impl CliprdrClientContext {
    pub closed spec fn spec_as_ptr(&self) -> usize {
        self.inner.spec_addr()
    }

    pub closed spec fn spec_owned(&self) -> bool {
        self.owned
    }

    pub closed spec fn spec_is_registered(&self) -> bool {
        self.registered
    }

    /// Wraps the native context at `ctxt`, whose user-data slot is occupied
    /// exactly if `registered`.
    pub fn from_ptr(ctxt: usize, owned: bool, registered: bool) -> (ret: CliprdrClientContext)
        requires
            ctxt != 0,
        ensures
            ret.spec_as_ptr() == ctxt,
            ret.spec_owned() == owned,
            ret.spec_is_registered() == registered,
    {
        CliprdrClientContext { inner: NativeRef::new_unchecked(ctxt), owned, registered }
    }

    #[verifier::when_used_as_spec(spec_as_ptr)]
    pub fn as_ptr(&self) -> (ret: usize)
        ensures
            ret == self.spec_as_ptr(),
            ret != 0,
    {
        self.inner.addr()
    }

    #[verifier::when_used_as_spec(spec_owned)]
    pub fn owned(&self) -> (ret: bool)
        ensures
            ret == self.spec_owned(),
    {
        self.owned
    }

    #[verifier::when_used_as_spec(spec_is_registered)]
    pub fn is_registered(&self) -> (ret: bool)
        ensures
            ret == self.spec_is_registered(),
    {
        self.registered
    }

    /// Binds `handler` to the context: the payload to put into the context's
    /// user-data slot comes back, and the context counts as registered from
    /// now on. A context takes one handler in its life.
    pub fn register_handler<H: CliprdrHandler>(&mut self, handler: H) -> (ret: Custom<H>)
        requires
            !old(self).spec_is_registered(),
        ensures
            ret.payload() == Some(handler),
            final(self).spec_is_registered(),
            final(self).spec_as_ptr() == old(self).spec_as_ptr(),
            final(self).spec_owned() == old(self).spec_owned(),
    {
        self.registered = true;
        Custom::new(handler)
    }

    /// Binds `handler` to the context unless the context has a handler
    /// already. A context that has one refuses the second: the handler comes
    /// back as it was given, nothing is replaced, and the context stays as it
    /// was. Otherwise this is `register_handler`.
    pub fn try_register_handler<H: CliprdrHandler>(&mut self, handler: H) -> (ret: Result<
        Custom<H>,
        H,
    >)
        ensures
            match ret {
                Ok(custom) => {
                    &&& !old(self).spec_is_registered()
                    &&& custom.payload() == Some(handler)
                    &&& final(self).spec_is_registered()
                    &&& final(self).spec_as_ptr() == old(self).spec_as_ptr()
                    &&& final(self).spec_owned() == old(self).spec_owned()
                },
                Err(refused) => {
                    &&& old(self).spec_is_registered()
                    &&& refused == handler
                    &&& *final(self) == *old(self)
                },
            },
    {
        if self.registered {
            Err(handler)
        } else {
            Ok(self.register_handler(handler))
        }
    }

    /// Ends this wrapper's life. The answer says whether the payload in the
    /// user-data slot is to be released now: it is if this wrapper owns the
    /// context and a handler is registered. Afterwards nothing is registered
    /// as far as an owning wrapper is concerned, so a second call never asks
    /// for a release again.
    pub fn teardown(&mut self) -> (ret: bool)
        ensures
            ret == (old(self).spec_owned() && old(self).spec_is_registered()),
            final(self).spec_is_registered() == (old(self).spec_is_registered()
                && !old(self).spec_owned()),
            final(self).spec_as_ptr() == old(self).spec_as_ptr(),
            final(self).spec_owned() == old(self).spec_owned(),
    {
        if self.owned && self.registered {
            self.registered = false;
            true
        } else {
            false
        }
    }
}

/// What an application implements to follow a clipboard channel. Every
/// method but the data request succeeds without doing anything unless it is
/// overridden; the data request fails as unsupported.
pub trait CliprdrHandler: Sized {
    fn monitor_ready(&mut self, _context: &mut CliprdrClientContext) -> (ret: Result<(), RdpError>)
        default_ensures
            ret is Ok,
            *final(self) == *old(self),
            *final(_context) == *old(_context),
    {
        Ok(())
    }

    fn server_capabilities(
        &mut self,
        _context: &mut CliprdrClientContext,
        _capabilities: Option<&GeneralCapabilities>,
    ) -> (ret: Result<(), RdpError>)
        default_ensures
            ret is Ok,
            *final(self) == *old(self),
            *final(_context) == *old(_context),
    {
        Ok(())
    }

    fn server_format_list(
        &mut self,
        _context: &mut CliprdrClientContext,
        _formats: &[CliprdrFormat],
    ) -> (ret: Result<(), RdpError>)
        default_ensures
            ret is Ok,
            *final(self) == *old(self),
            *final(_context) == *old(_context),
    {
        Ok(())
    }

    fn server_format_list_response(&mut self, _context: &mut CliprdrClientContext) -> (ret: Result<
        (),
        RdpError,
    >)
        default_ensures
            ret is Ok,
            *final(self) == *old(self),
            *final(_context) == *old(_context),
    {
        Ok(())
    }

    fn server_format_data_request(
        &mut self,
        _context: &mut CliprdrClientContext,
        _format: Format,
    ) -> (ret: Result<(), RdpError>)
        default_ensures
            ret == Err::<(), RdpError>(RdpError::Unsupported),
            *final(self) == *old(self),
            *final(_context) == *old(_context),
    {
        Err(RdpError::Unsupported)
    }

    fn server_format_data_response(
        &mut self,
        _context: &mut CliprdrClientContext,
        _data: &[u8],
    ) -> (ret: Result<(), RdpError>)
        default_ensures
            ret is Ok,
            *final(self) == *old(self),
            *final(_context) == *old(_context),
    {
        Ok(())
    }
}

/// Forwards "monitor ready" to the handler in `custom`: the handler and the
/// context are handed over as they are and come back as the call left them,
/// and the answer is zero exactly if the handler succeeded. Without a handler
/// the call fails.
pub fn rdp_cliprdr_monitor_ready<H: CliprdrHandler>(
    context: &mut CliprdrClientContext,
    custom: &mut Custom<H>,
) -> (ret: u32)
    ensures
        old(custom).payload() is None ==> {
            &&& ret == 1
            &&& final(custom).payload() is None
            &&& *final(context) == *old(context)
        },
        old(custom).payload() is Some ==> exists|
            h: &mut H,
            c: &mut CliprdrClientContext,
            outcome: Result<(), RdpError>,
        |
            {
                &&& mut_ref_current(h) == old(custom).payload()->0
                &&& final(custom).payload() == Some(mut_ref_future(h))
                &&& mut_ref_current(c) == *old(context)
                &&& mut_ref_future(c) == *final(context)
                &&& #[trigger] call_ensures(H::monitor_ready, (h, c), outcome)
                &&& ret == Slot::MonitorReady.reports(outcome is Ok)
            },
{
    if custom.is_released() {
        return 1;
    }
    let handler = custom.handler();
    let outcome = handler.monitor_ready(context);
    Slot::MonitorReady.native_return(&outcome)
}

/// Forwards the server's capabilities to the handler in `custom`: what the
/// handler gets is what the scan finds among the `count` sets in `buffer`,
/// without the bits that have no meaning. The answer is zero exactly if the
/// handler succeeded; without a handler the call fails.
pub fn rdp_cliprdr_server_capabilities<H: CliprdrHandler>(
    context: &mut CliprdrClientContext,
    custom: &mut Custom<H>,
    buffer: &[u8],
    count: u32,
) -> (ret: u32)
    ensures
        old(custom).payload() is None ==> {
            &&& ret == 1
            &&& final(custom).payload() is None
            &&& *final(context) == *old(context)
        },
        old(custom).payload() is Some ==> exists|
            h: &mut H,
            c: &mut CliprdrClientContext,
            given: Option<&GeneralCapabilities>,
            outcome: Result<(), RdpError>,
        |
            {
                &&& mut_ref_current(h) == old(custom).payload()->0
                &&& final(custom).payload() == Some(mut_ref_future(h))
                &&& mut_ref_current(c) == *old(context)
                &&& mut_ref_future(c) == *final(context)
                &&& match scan_general(buffer@, count as nat) {
                    Some(flags) => given matches Some(g) && g.spec_bits() == flags
                        & GeneralCapabilities::ALL,
                    None => given is None,
                }
                &&& #[trigger] call_ensures(H::server_capabilities, (h, c, given), outcome)
                &&& ret == Slot::ServerCapabilities.reports(outcome is Ok)
            },
{
    if custom.is_released() {
        return 1;
    }
    let capabilities = general_capabilities(buffer, count);
    let handler = custom.handler();
    let outcome = handler.server_capabilities(context, capabilities.as_ref());
    Slot::ServerCapabilities.native_return(&outcome)
}

/// Forwards the server's format list to the handler in `custom`: what the
/// handler gets are the formats of the list, read entry by entry and in
/// their order. The answer is zero exactly if the handler succeeded; without
/// a handler the call fails.
pub fn rdp_cliprdr_server_format_list<H: CliprdrHandler>(
    context: &mut CliprdrClientContext,
    custom: &mut Custom<H>,
    list: &FormatList,
) -> (ret: u32)
    ensures
        old(custom).payload() is None ==> {
            &&& ret == 1
            &&& final(custom).payload() is None
            &&& *final(context) == *old(context)
        },
        old(custom).payload() is Some ==> exists|
            h: &mut H,
            c: &mut CliprdrClientContext,
            formats: &[CliprdrFormat],
            outcome: Result<(), RdpError>,
        |
            {
                &&& mut_ref_current(h) == old(custom).payload()->0
                &&& final(custom).payload() == Some(mut_ref_future(h))
                &&& mut_ref_current(c) == *old(context)
                &&& mut_ref_future(c) == *final(context)
                &&& formats@.len() == list.formats@.len()
                &&& forall|i: int|
                    0 <= i < formats@.len() ==> (#[trigger] formats@[i])@ == received_format(
                        list.formats@[i]@,
                    )
                &&& #[trigger] call_ensures(H::server_format_list, (h, c, formats), outcome)
                &&& ret == Slot::ServerFormatList.reports(outcome is Ok)
            },
{
    if custom.is_released() {
        return 1;
    }
    let formats = list.to_formats();
    let handler = custom.handler();
    let outcome = handler.server_format_list(context, formats.as_slice());
    Slot::ServerFormatList.native_return(&outcome)
}

/// Forwards the server's answer to a format list to the handler in `custom`,
/// and answers with zero exactly if the handler succeeded. Without a handler
/// the call fails.
pub fn rdp_cliprdr_server_format_list_response<H: CliprdrHandler>(
    context: &mut CliprdrClientContext,
    custom: &mut Custom<H>,
) -> (ret: u32)
    ensures
        old(custom).payload() is None ==> {
            &&& ret == 1
            &&& final(custom).payload() is None
            &&& *final(context) == *old(context)
        },
        old(custom).payload() is Some ==> exists|
            h: &mut H,
            c: &mut CliprdrClientContext,
            outcome: Result<(), RdpError>,
        |
            {
                &&& mut_ref_current(h) == old(custom).payload()->0
                &&& final(custom).payload() == Some(mut_ref_future(h))
                &&& mut_ref_current(c) == *old(context)
                &&& mut_ref_future(c) == *final(context)
                &&& #[trigger] call_ensures(H::server_format_list_response, (h, c), outcome)
                &&& ret == Slot::ServerFormatListResponse.reports(outcome is Ok)
            },
{
    if custom.is_released() {
        return 1;
    }
    let handler = custom.handler();
    let outcome = handler.server_format_list_response(context);
    Slot::ServerFormatListResponse.native_return(&outcome)
}

/// Forwards the server's request for data to the handler in `custom`: the
/// handler gets the format that the request names, and the answer is zero
/// exactly if it succeeded. A request for a format without a fixed identifier
/// fails at once, and the handler does not see it; without a handler the call
/// fails.
pub fn rdp_cliprdr_server_format_data_request<H: CliprdrHandler>(
    context: &mut CliprdrClientContext,
    custom: &mut Custom<H>,
    request: &FormatDataRequest,
) -> (ret: u32)
    ensures
        old(custom).payload() is None ==> {
            &&& ret == 1
            &&& final(custom).payload() is None
            &&& *final(context) == *old(context)
        },
        Format::of_code(request.requested_format_id) is None ==> {
            &&& ret == 1
            &&& final(custom).payload() == old(custom).payload()
            &&& *final(context) == *old(context)
        },
        Format::of_code(request.requested_format_id) matches Some(format) ==> old(
            custom,
        ).payload() is Some ==> exists|
            h: &mut H,
            c: &mut CliprdrClientContext,
            outcome: Result<(), RdpError>,
        |
            {
                &&& mut_ref_current(h) == old(custom).payload()->0
                &&& final(custom).payload() == Some(mut_ref_future(h))
                &&& mut_ref_current(c) == *old(context)
                &&& mut_ref_future(c) == *final(context)
                &&& #[trigger] call_ensures(
                    H::server_format_data_request,
                    (h, c, format),
                    outcome,
                )
                &&& ret == Slot::ServerFormatDataRequest.reports(outcome is Ok)
            },
{
    if custom.is_released() {
        return 1;
    }
    match Format::try_from(request.requested_format_id) {
        Ok(format) => {
            let handler = custom.handler();
            let outcome = handler.server_format_data_request(context, format);
            Slot::ServerFormatDataRequest.native_return(&outcome)
        },
        Err(_) => 1,
    }
}

/// Forwards the data that the server sent to the handler in `custom`, and
/// answers with zero exactly if the handler succeeded. Without a handler the
/// call fails.
pub fn rdp_cliprdr_server_format_data_response<H: CliprdrHandler>(
    context: &mut CliprdrClientContext,
    custom: &mut Custom<H>,
    data: &[u8],
) -> (ret: u32)
    ensures
        old(custom).payload() is None ==> {
            &&& ret == 1
            &&& final(custom).payload() is None
            &&& *final(context) == *old(context)
        },
        old(custom).payload() is Some ==> exists|
            h: &mut H,
            c: &mut CliprdrClientContext,
            outcome: Result<(), RdpError>,
        |
            {
                &&& mut_ref_current(h) == old(custom).payload()->0
                &&& final(custom).payload() == Some(mut_ref_future(h))
                &&& mut_ref_current(c) == *old(context)
                &&& mut_ref_future(c) == *final(context)
                &&& #[trigger] call_ensures(H::server_format_data_response, (h, c, data), outcome)
                &&& ret == Slot::ServerFormatDataResponse.reports(outcome is Ok)
            },
{
    if custom.is_released() {
        return 1;
    }
    let handler = custom.handler();
    let outcome = handler.server_format_data_response(context, data);
    Slot::ServerFormatDataResponse.native_return(&outcome)
}

} // verus!
