//! Data model of the protocol: telegrams, signal aspects, brightness,
//! version-check results and the byte values that stand for them on the
//! wire.

use vstd::prelude::*;

verus! {

/// Width of a station identifier on the wire.
pub const STATION_ID_LEN: usize = 20;

/// Byte that pads a short station name up to `STATION_ID_LEN` bytes.
pub const ID_PAD: u8 = 0x5F;

/// Protocol version spoken by this implementation.
pub const SCI_LS_VERSION: u8 = 0x03;

/// Close-reason byte sent when a telegram arrives out of sequence.
pub const CLOSE_REASON_PROTOCOL_ERROR: u8 = 0x01;

/// The main aspect a light signal can show.
#[derive(Clone, Copy, PartialEq, Eq, Structural, Debug)]
pub enum MainAspect {
    Hp0,
    Hp0PlusSh1,
    Hp0WithDrivingIndicator,
    Ks1,
    Ks1Flashing,
    Ks1FlashingWithAdditionalLight,
    Ks2,
    Ks2WithAdditionalLight,
    Sh1,
    IdLight,
    Hp0Hv,
    Hp1,
    Hp2,
    Vr0,
    Vr1,
    Vr2,
    Off,
}

/// Brightness of a light signal.
#[derive(Clone, Copy, PartialEq, Eq, Structural, Debug)]
pub enum Brightness {
    Day,
    Night,
}

/// Outcome of comparing the local protocol version with the peer's.
#[derive(Clone, Copy, PartialEq, Eq, Structural, Debug)]
pub enum CheckResult {
    VersionsMatch,
    VersionsMismatch,
}

/// A signal aspect as carried in telegrams: the main aspect together with
/// nine reserved bytes that are carried but not interpreted.
#[derive(Clone, PartialEq, Eq, Debug)]
pub struct SignalAspect {
    pub main: MainAspect,
    pub reserved: Vec<u8>,
}

/// Mathematical image of a `SignalAspect`.
pub struct SignalAspectView {
    pub main: MainAspect,
    pub reserved: Seq<u8>,
}

impl View for SignalAspect {
    type V = SignalAspectView;

    open spec fn view(&self) -> SignalAspectView {
        SignalAspectView { main: self.main, reserved: self.reserved@ }
    }
}

impl SignalAspect {
    /// A well-formed aspect carries exactly nine reserved bytes.
    pub open spec fn wf(self) -> bool {
        self@.wf()
    }

    /// Builds an aspect with the given main aspect and zeroed reserved
    /// bytes, as status telegrams report it.
    pub fn from_main(main: MainAspect) -> (r: SignalAspect)
        ensures
            r@ == spec_status_aspect(main),
            r.wf(),
    {
        let mut reserved: Vec<u8> = Vec::new();
        let mut i: usize = 0;
        while i < 9
            invariant
                i <= 9,
                reserved@ =~= Seq::new(i as nat, |j: int| 0u8),
            decreases 9 - i,
        {
            reserved.push(0u8);
            i = i + 1;
        }
        proof {
            assert(reserved@ =~= zero_reserved());
        }
        SignalAspect { main, reserved }
    }

    /// Copies this aspect.
    pub fn duplicate(&self) -> (r: SignalAspect)
        ensures
            r@ == self@,
    {
        SignalAspect { main: self.main, reserved: copy_bytes(&self.reserved) }
    }
}

impl SignalAspectView {
    pub open spec fn wf(self) -> bool {
        self.reserved.len() == 9
    }
}

/// The typed content of a telegram: message type together with its
/// decoded payload.  The payload shape of each message type is fixed by
/// construction.
#[derive(Clone, PartialEq, Eq, Debug)]
pub enum Content {
    VersionRequest { version: u8 },
    VersionResponse { result: CheckResult, version: u8, checksum: Vec<u8> },
    StatusRequest,
    StatusBegin,
    StatusFinish,
    ShowSignalAspect { aspect: SignalAspect },
    SignalAspectStatus { aspect: SignalAspect },
    ChangeBrightness { brightness: Brightness },
    BrightnessStatus { brightness: Brightness },
    ReleaseForMaintenance,
    Close { reason: u8 },
    /// A message type this protocol layer does not interpret; the raw
    /// type bytes and payload are carried through.
    Unknown { type_hi: u8, type_lo: u8, payload: Vec<u8> },
}

/// Mathematical image of a `Content`.
pub enum ContentView {
    VersionRequest { version: u8 },
    VersionResponse { result: CheckResult, version: u8, checksum: Seq<u8> },
    StatusRequest,
    StatusBegin,
    StatusFinish,
    ShowSignalAspect { aspect: SignalAspectView },
    SignalAspectStatus { aspect: SignalAspectView },
    ChangeBrightness { brightness: Brightness },
    BrightnessStatus { brightness: Brightness },
    ReleaseForMaintenance,
    Close { reason: u8 },
    Unknown { type_hi: u8, type_lo: u8, payload: Seq<u8> },
}

impl View for Content {
    type V = ContentView;

    open spec fn view(&self) -> ContentView {
        match self {
            Content::VersionRequest { version } => ContentView::VersionRequest {
                version: *version,
            },
            Content::VersionResponse { result, version, checksum } => ContentView::VersionResponse {
                result: *result,
                version: *version,
                checksum: checksum@,
            },
            Content::StatusRequest => ContentView::StatusRequest,
            Content::StatusBegin => ContentView::StatusBegin,
            Content::StatusFinish => ContentView::StatusFinish,
            Content::ShowSignalAspect { aspect } => ContentView::ShowSignalAspect {
                aspect: aspect@,
            },
            Content::SignalAspectStatus { aspect } => ContentView::SignalAspectStatus {
                aspect: aspect@,
            },
            Content::ChangeBrightness { brightness } => ContentView::ChangeBrightness {
                brightness: *brightness,
            },
            Content::BrightnessStatus { brightness } => ContentView::BrightnessStatus {
                brightness: *brightness,
            },
            Content::ReleaseForMaintenance => ContentView::ReleaseForMaintenance,
            Content::Close { reason } => ContentView::Close { reason: *reason },
            Content::Unknown { type_hi, type_lo, payload } => ContentView::Unknown {
                type_hi: *type_hi,
                type_lo: *type_lo,
                payload: payload@,
            },
        }
    }
}

/// One protocol message: message type and payload (as `Content`) together
/// with the wire identifiers of the sending and the receiving station.
#[derive(Clone, PartialEq, Eq, Debug)]
pub struct Telegram {
    pub sender: Vec<u8>,
    pub receiver: Vec<u8>,
    pub content: Content,
}

/// Mathematical image of a `Telegram`.
pub struct TelegramView {
    pub sender: Seq<u8>,
    pub receiver: Seq<u8>,
    pub content: ContentView,
}

impl View for Telegram {
    type V = TelegramView;

    open spec fn view(&self) -> TelegramView {
        TelegramView { sender: self.sender@, receiver: self.receiver@, content: self.content@ }
    }
}

// Low bytes of the two-byte message type codes; the high byte of every
// code this layer interprets is zero.
pub const MT_LO_SHOW_SIGNAL_ASPECT: u8 = 0x01;
pub const MT_LO_CHANGE_BRIGHTNESS: u8 = 0x02;
pub const MT_LO_SIGNAL_ASPECT_STATUS: u8 = 0x03;
pub const MT_LO_BRIGHTNESS_STATUS: u8 = 0x04;
pub const MT_LO_STATUS_REQUEST: u8 = 0x21;
pub const MT_LO_STATUS_BEGIN: u8 = 0x22;
pub const MT_LO_STATUS_FINISH: u8 = 0x23;
pub const MT_LO_VERSION_REQUEST: u8 = 0x24;
pub const MT_LO_VERSION_RESPONSE: u8 = 0x25;
pub const MT_LO_CLOSE: u8 = 0x27;
pub const MT_LO_RELEASE_FOR_MAINTENANCE: u8 = 0x28;

/// Whether the two type bytes name a message type this layer interprets.
pub open spec fn known_msg_type(type_hi: u8, type_lo: u8) -> bool {
    type_hi == 0x00 && (type_lo == MT_LO_SHOW_SIGNAL_ASPECT || type_lo == MT_LO_CHANGE_BRIGHTNESS
        || type_lo == MT_LO_SIGNAL_ASPECT_STATUS || type_lo == MT_LO_BRIGHTNESS_STATUS
        || type_lo == MT_LO_STATUS_REQUEST || type_lo == MT_LO_STATUS_BEGIN
        || type_lo == MT_LO_STATUS_FINISH || type_lo == MT_LO_VERSION_REQUEST
        || type_lo == MT_LO_VERSION_RESPONSE || type_lo == MT_LO_CLOSE
        || type_lo == MT_LO_RELEASE_FOR_MAINTENANCE)
}

/// High type byte of a content's message type.
pub open spec fn content_type_hi(c: ContentView) -> u8 {
    match c {
        ContentView::Unknown { type_hi, .. } => type_hi,
        _ => 0x00,
    }
}

/// Low type byte of a content's message type.
pub open spec fn content_type_lo(c: ContentView) -> u8 {
    match c {
        ContentView::VersionRequest { .. } => MT_LO_VERSION_REQUEST,
        ContentView::VersionResponse { .. } => MT_LO_VERSION_RESPONSE,
        ContentView::StatusRequest => MT_LO_STATUS_REQUEST,
        ContentView::StatusBegin => MT_LO_STATUS_BEGIN,
        ContentView::StatusFinish => MT_LO_STATUS_FINISH,
        ContentView::ShowSignalAspect { .. } => MT_LO_SHOW_SIGNAL_ASPECT,
        ContentView::SignalAspectStatus { .. } => MT_LO_SIGNAL_ASPECT_STATUS,
        ContentView::ChangeBrightness { .. } => MT_LO_CHANGE_BRIGHTNESS,
        ContentView::BrightnessStatus { .. } => MT_LO_BRIGHTNESS_STATUS,
        ContentView::ReleaseForMaintenance => MT_LO_RELEASE_FOR_MAINTENANCE,
        ContentView::Close { .. } => MT_LO_CLOSE,
        ContentView::Unknown { type_lo, .. } => type_lo,
    }
}

// Wire bytes of the enumerations carried in payloads.

/// Wire byte of a main aspect.
pub open spec fn aspect_code(m: MainAspect) -> u8 {
    match m {
        MainAspect::Hp0 => 0x01,
        MainAspect::Hp0PlusSh1 => 0x02,
        MainAspect::Hp0WithDrivingIndicator => 0x03,
        MainAspect::Ks1 => 0x04,
        MainAspect::Ks1Flashing => 0x05,
        MainAspect::Ks1FlashingWithAdditionalLight => 0x06,
        MainAspect::Ks2 => 0x07,
        MainAspect::Ks2WithAdditionalLight => 0x08,
        MainAspect::Sh1 => 0x09,
        MainAspect::IdLight => 0x0A,
        MainAspect::Hp0Hv => 0x0B,
        MainAspect::Hp1 => 0x0C,
        MainAspect::Hp2 => 0x0D,
        MainAspect::Vr0 => 0x0E,
        MainAspect::Vr1 => 0x0F,
        MainAspect::Vr2 => 0x10,
        MainAspect::Off => 0xFF,
    }
}

/// Main aspect named by a wire byte, if any.
pub open spec fn aspect_of_code(b: u8) -> Option<MainAspect> {
    if b == 0x01 { Some(MainAspect::Hp0) }
    else if b == 0x02 { Some(MainAspect::Hp0PlusSh1) }
    else if b == 0x03 { Some(MainAspect::Hp0WithDrivingIndicator) }
    else if b == 0x04 { Some(MainAspect::Ks1) }
    else if b == 0x05 { Some(MainAspect::Ks1Flashing) }
    else if b == 0x06 { Some(MainAspect::Ks1FlashingWithAdditionalLight) }
    else if b == 0x07 { Some(MainAspect::Ks2) }
    else if b == 0x08 { Some(MainAspect::Ks2WithAdditionalLight) }
    else if b == 0x09 { Some(MainAspect::Sh1) }
    else if b == 0x0A { Some(MainAspect::IdLight) }
    else if b == 0x0B { Some(MainAspect::Hp0Hv) }
    else if b == 0x0C { Some(MainAspect::Hp1) }
    else if b == 0x0D { Some(MainAspect::Hp2) }
    else if b == 0x0E { Some(MainAspect::Vr0) }
    else if b == 0x0F { Some(MainAspect::Vr1) }
    else if b == 0x10 { Some(MainAspect::Vr2) }
    else if b == 0xFF { Some(MainAspect::Off) }
    else { None }
}

/// Wire byte of a brightness.
pub open spec fn brightness_code(b: Brightness) -> u8 {
    match b {
        Brightness::Day => 0x01,
        Brightness::Night => 0x02,
    }
}

/// Brightness named by a wire byte, if any.
pub open spec fn brightness_of_code(b: u8) -> Option<Brightness> {
    if b == 0x01 { Some(Brightness::Day) }
    else if b == 0x02 { Some(Brightness::Night) }
    else { None }
}

/// Wire byte of a version-check result.
pub open spec fn check_result_code(r: CheckResult) -> u8 {
    match r {
        CheckResult::VersionsMatch => 0x01,
        CheckResult::VersionsMismatch => 0x02,
    }
}

/// Version-check result named by a wire byte, if any.
pub open spec fn check_result_of_code(b: u8) -> Option<CheckResult> {
    if b == 0x01 { Some(CheckResult::VersionsMatch) }
    else if b == 0x02 { Some(CheckResult::VersionsMismatch) }
    else { None }
}

// Executable forms of the byte maps.

pub fn main_aspect_to_code(m: MainAspect) -> (b: u8)
    ensures
        b == aspect_code(m),
{
    match m {
        MainAspect::Hp0 => 0x01,
        MainAspect::Hp0PlusSh1 => 0x02,
        MainAspect::Hp0WithDrivingIndicator => 0x03,
        MainAspect::Ks1 => 0x04,
        MainAspect::Ks1Flashing => 0x05,
        MainAspect::Ks1FlashingWithAdditionalLight => 0x06,
        MainAspect::Ks2 => 0x07,
        MainAspect::Ks2WithAdditionalLight => 0x08,
        MainAspect::Sh1 => 0x09,
        MainAspect::IdLight => 0x0A,
        MainAspect::Hp0Hv => 0x0B,
        MainAspect::Hp1 => 0x0C,
        MainAspect::Hp2 => 0x0D,
        MainAspect::Vr0 => 0x0E,
        MainAspect::Vr1 => 0x0F,
        MainAspect::Vr2 => 0x10,
        MainAspect::Off => 0xFF,
    }
}

pub fn main_aspect_from_code(b: u8) -> (r: Option<MainAspect>)
    ensures
        r == aspect_of_code(b),
{
    if b == 0x01 { Some(MainAspect::Hp0) }
    else if b == 0x02 { Some(MainAspect::Hp0PlusSh1) }
    else if b == 0x03 { Some(MainAspect::Hp0WithDrivingIndicator) }
    else if b == 0x04 { Some(MainAspect::Ks1) }
    else if b == 0x05 { Some(MainAspect::Ks1Flashing) }
    else if b == 0x06 { Some(MainAspect::Ks1FlashingWithAdditionalLight) }
    else if b == 0x07 { Some(MainAspect::Ks2) }
    else if b == 0x08 { Some(MainAspect::Ks2WithAdditionalLight) }
    else if b == 0x09 { Some(MainAspect::Sh1) }
    else if b == 0x0A { Some(MainAspect::IdLight) }
    else if b == 0x0B { Some(MainAspect::Hp0Hv) }
    else if b == 0x0C { Some(MainAspect::Hp1) }
    else if b == 0x0D { Some(MainAspect::Hp2) }
    else if b == 0x0E { Some(MainAspect::Vr0) }
    else if b == 0x0F { Some(MainAspect::Vr1) }
    else if b == 0x10 { Some(MainAspect::Vr2) }
    else if b == 0xFF { Some(MainAspect::Off) }
    else { None }
}

pub fn brightness_to_code(b: Brightness) -> (c: u8)
    ensures
        c == brightness_code(b),
{
    match b {
        Brightness::Day => 0x01,
        Brightness::Night => 0x02,
    }
}

pub fn brightness_from_code(b: u8) -> (r: Option<Brightness>)
    ensures
        r == brightness_of_code(b),
{
    if b == 0x01 { Some(Brightness::Day) }
    else if b == 0x02 { Some(Brightness::Night) }
    else { None }
}

pub fn check_result_to_code(r: CheckResult) -> (c: u8)
    ensures
        c == check_result_code(r),
{
    match r {
        CheckResult::VersionsMatch => 0x01,
        CheckResult::VersionsMismatch => 0x02,
    }
}

pub fn check_result_from_code(b: u8) -> (r: Option<CheckResult>)
    ensures
        r == check_result_of_code(b),
{
    if b == 0x01 { Some(CheckResult::VersionsMatch) }
    else if b == 0x02 { Some(CheckResult::VersionsMismatch) }
    else { None }
}

/// Sequence of `ID_PAD` bytes that fills a station name of the given
/// length up to the wire width.
pub open spec fn id_padding(name_len: nat) -> Seq<u8> {
    Seq::new((STATION_ID_LEN - name_len) as nat, |i: int| ID_PAD)
}

/// Station identifier on the wire: the name followed by padding.
pub open spec fn padded_id(name: Seq<u8>) -> Seq<u8>
    recommends
        name.len() <= STATION_ID_LEN,
{
    name + id_padding(name.len())
}

/// Pads a station name to its fixed wire width.
pub fn station_id(name: &[u8]) -> (r: Vec<u8>)
    requires
        name@.len() <= STATION_ID_LEN,
    ensures
        r@ == padded_id(name@),
        r@.len() == STATION_ID_LEN,
{
    let mut r: Vec<u8> = Vec::new();
    let mut i: usize = 0;
    let n = name.len();
    while i < n
        invariant
            i <= n,
            n == name@.len() <= STATION_ID_LEN,
            r@ =~= name@.subrange(0, i as int),
        decreases n - i,
    {
        r.push(name[i]);
        i = i + 1;
    }
    proof {
        assert(r@ =~= name@);
    }
    while r.len() < STATION_ID_LEN
        invariant
            name@.len() <= r@.len() <= STATION_ID_LEN,
            r@ =~= name@ + Seq::new((r@.len() - name@.len()) as nat, |i: int| ID_PAD),
        decreases STATION_ID_LEN - r@.len(),
    {
        r.push(ID_PAD);
    }
    proof {
        assert(r@ =~= padded_id(name@));
    }
    r
}

/// Cause a session reports for logging when it discards a telegram or
/// tears the session down.
#[derive(Clone, Copy, PartialEq, Eq, Structural, Debug)]
pub enum ProtocolFault {
    MalformedTelegram,
    ProtocolSequenceError,
    VersionMismatch,
    UnsupportedCommand,
    TransportFailure,
    UnrecognizedMessage,
}

/// Nine zeroed reserved bytes, as status telegrams carry them.
pub open spec fn zero_reserved() -> Seq<u8> {
    Seq::new(9, |i: int| 0u8)
}

/// Aspect value reported in status telegrams for a given main aspect:
/// the main aspect with zeroed reserved bytes.
pub open spec fn spec_status_aspect(m: MainAspect) -> SignalAspectView {
    SignalAspectView { main: m, reserved: zero_reserved() }
}

/// The most restrictive main aspect, commanded as fail-safe default on
/// disconnect or anomaly.
pub open spec fn most_restrictive_main() -> MainAspect {
    MainAspect::Ks2
}

/// Builds the fail-safe aspect commanded when a session ends.
pub fn most_restrictive_aspect() -> (r: SignalAspect)
    ensures
        r@ == spec_status_aspect(most_restrictive_main()),
        r.wf(),
{
    SignalAspect::from_main(MainAspect::Ks2)
}

/// The telegram answering `t`: same content direction reversed.
pub open spec fn spec_reply(t: TelegramView, content: ContentView) -> TelegramView {
    TelegramView { sender: t.receiver, receiver: t.sender, content }
}

/// Builds the telegram that answers `t` with the given content.
pub fn reply_telegram(t: &Telegram, content: Content) -> (r: Telegram)
    requires
        t.wf(),
        content@.wf(),
    ensures
        r@ == spec_reply(t@, content@),
        r.wf(),
{
    Telegram { sender: copy_bytes(&t.receiver), receiver: copy_bytes(&t.sender), content }
}

/// View of each element of a sequence.
pub open spec fn seq_view<T: View>(s: Seq<T>) -> Seq<T::V> {
    s.map_values(|x: T| x@)
}

/// View of the content of an option.
pub open spec fn option_view<T: View>(o: Option<T>) -> Option<T::V> {
    match o {
        Some(x) => Some(x@),
        None => None,
    }
}

/// Copies a byte vector.
pub fn copy_bytes(src: &Vec<u8>) -> (r: Vec<u8>)
    ensures
        r@ == src@,
{
    let mut r: Vec<u8> = Vec::new();
    let mut i: usize = 0;
    while i < src.len()
        invariant
            i <= src@.len(),
            r@ =~= src@.subrange(0, i as int),
        decreases src@.len() - i,
    {
        r.push(src[i]);
        i = i + 1;
    }
    proof {
        assert(r@ =~= src@);
    }
    r
}

/// Whether two byte vectors hold the same bytes.
pub fn bytes_eq(a: &Vec<u8>, b: &Vec<u8>) -> (r: bool)
    ensures
        r == (a@ == b@),
{
    if a.len() != b.len() {
        proof {
            assert(a@ != b@);
        }
        return false;
    }
    let mut i: usize = 0;
    while i < a.len()
        invariant
            i <= a@.len(),
            a@.len() == b@.len(),
            forall|j: int| 0 <= j < i ==> a@[j] == b@[j],
        decreases a@.len() - i,
    {
        if a[i] != b[i] {
            proof {
                assert(a@[i as int] != b@[i as int]);
            }
            return false;
        }
        i = i + 1;
    }
    proof {
        assert(a@ =~= b@);
    }
    true
}

impl ContentView {
    /// Payload-shape invariant of a telegram's content.
    pub open spec fn wf(self) -> bool {
        match self {
            ContentView::VersionResponse { checksum, .. } => checksum.len() <= 252,
            ContentView::ShowSignalAspect { aspect } => aspect.wf(),
            ContentView::SignalAspectStatus { aspect } => aspect.wf(),
            ContentView::Unknown { type_hi, type_lo, payload } => !known_msg_type(
                type_hi,
                type_lo,
            ) && payload.len() <= 255,
            _ => true,
        }
    }
}

impl TelegramView {
    /// Well-formedness of a telegram: fixed-width station identifiers and
    /// a payload of the shape its message type fixes.
    pub open spec fn wf(self) -> bool {
        &&& self.sender.len() == STATION_ID_LEN
        &&& self.receiver.len() == STATION_ID_LEN
        &&& self.content.wf()
    }
}

impl Telegram {
    pub open spec fn wf(self) -> bool {
        self@.wf()
    }

    /// Runtime check of `wf`, for callers that obtained a telegram from
    /// outside the crate's own constructors.
    pub fn check_wf(&self) -> (r: bool)
        ensures
            r == self.wf(),
    {
        if self.sender.len() != STATION_ID_LEN || self.receiver.len() != STATION_ID_LEN {
            return false;
        }
        match &self.content {
            Content::VersionResponse { checksum, .. } => checksum.len() <= 252,
            Content::ShowSignalAspect { aspect } => aspect.reserved.len() == 9,
            Content::SignalAspectStatus { aspect } => aspect.reserved.len() == 9,
            Content::Unknown { type_hi, type_lo, payload } => {
                let known = *type_hi == 0x00 && (*type_lo == MT_LO_SHOW_SIGNAL_ASPECT
                    || *type_lo == MT_LO_CHANGE_BRIGHTNESS
                    || *type_lo == MT_LO_SIGNAL_ASPECT_STATUS
                    || *type_lo == MT_LO_BRIGHTNESS_STATUS || *type_lo == MT_LO_STATUS_REQUEST
                    || *type_lo == MT_LO_STATUS_BEGIN || *type_lo == MT_LO_STATUS_FINISH
                    || *type_lo == MT_LO_VERSION_REQUEST || *type_lo == MT_LO_VERSION_RESPONSE
                    || *type_lo == MT_LO_CLOSE || *type_lo == MT_LO_RELEASE_FOR_MAINTENANCE);
                !known && payload.len() <= 255
            },
            _ => true,
        }
    }
}

} // verus!
