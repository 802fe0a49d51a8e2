//! Binary codec: the canonical encoding of telegrams and its inverse.
//!
//! The wire form of a telegram is
//! `[type: 2 bytes][sender: 20 bytes][receiver: 20 bytes][payload length: 1
//! byte][payload]`, with the payload shape fixed by the message type.
//! Decoding fails exactly when the length or the declared message type is
//! inconsistent with the payload.

use vstd::prelude::*;
use crate::types::{
    aspect_code, aspect_of_code, brightness_code, brightness_of_code, brightness_from_code,
    brightness_to_code, check_result_code, check_result_from_code, check_result_of_code,
    check_result_to_code, content_type_hi, content_type_lo, main_aspect_from_code,
    main_aspect_to_code, Content, ContentView, SignalAspect, SignalAspectView, Telegram,
    TelegramView, MT_LO_BRIGHTNESS_STATUS, MT_LO_CHANGE_BRIGHTNESS, MT_LO_CLOSE,
    MT_LO_RELEASE_FOR_MAINTENANCE, MT_LO_SHOW_SIGNAL_ASPECT, MT_LO_SIGNAL_ASPECT_STATUS,
    MT_LO_STATUS_BEGIN, MT_LO_STATUS_FINISH, MT_LO_STATUS_REQUEST, MT_LO_VERSION_REQUEST,
    MT_LO_VERSION_RESPONSE,
};

verus! {

/// Why a byte sequence failed to decode.
#[derive(Clone, Copy, PartialEq, Eq, Structural, Debug)]
pub enum DecodeError {
    MalformedTelegram,
}

/// Bytes of the fixed-size part of a telegram: two type bytes, two
/// station identifiers and the payload-length byte.
pub const HEADER_LEN: usize = 43;

/// Payload bytes of a content.
pub open spec fn spec_payload(c: ContentView) -> Seq<u8> {
    match c {
        ContentView::VersionRequest { version } => seq![version],
        ContentView::VersionResponse { result, version, checksum } => seq![
            check_result_code(result),
            version,
            checksum.len() as u8,
        ] + checksum,
        ContentView::StatusRequest => seq![],
        ContentView::StatusBegin => seq![],
        ContentView::StatusFinish => seq![],
        ContentView::ShowSignalAspect { aspect } => seq![aspect_code(aspect.main)]
            + aspect.reserved,
        ContentView::SignalAspectStatus { aspect } => seq![aspect_code(aspect.main)]
            + aspect.reserved,
        ContentView::ChangeBrightness { brightness } => seq![brightness_code(brightness)],
        ContentView::BrightnessStatus { brightness } => seq![brightness_code(brightness)],
        ContentView::ReleaseForMaintenance => seq![],
        ContentView::Close { reason } => seq![reason],
        ContentView::Unknown { payload, .. } => payload,
    }
}

/// A well-formed content's payload fits the one-byte length field.
pub proof fn lemma_payload_len(c: ContentView)
    requires
        c.wf(),
    ensures
        spec_payload(c).len() <= 255,
{
}

/// Canonical encoding of a telegram.
pub open spec fn spec_encode(t: TelegramView) -> Seq<u8> {
    seq![content_type_hi(t.content), content_type_lo(t.content)] + t.sender + t.receiver + seq![
        spec_payload(t.content).len() as u8,
    ] + spec_payload(t.content)
}

/// Content named by the two type bytes and the payload, if the payload
/// has the shape the message type fixes.
pub open spec fn spec_parse_content(type_hi: u8, type_lo: u8, p: Seq<u8>) -> Option<ContentView> {
    if type_hi == 0x00 && type_lo == MT_LO_VERSION_REQUEST {
        if p.len() == 1 {
            Some(ContentView::VersionRequest { version: p[0] })
        } else {
            None
        }
    } else if type_hi == 0x00 && type_lo == MT_LO_VERSION_RESPONSE {
        if p.len() >= 3 && p[2] as int == p.len() - 3 {
            match check_result_of_code(p[0]) {
                Some(result) => Some(ContentView::VersionResponse {
                    result,
                    version: p[1],
                    checksum: p.subrange(3, p.len() as int),
                }),
                None => None,
            }
        } else {
            None
        }
    } else if type_hi == 0x00 && type_lo == MT_LO_STATUS_REQUEST {
        if p.len() == 0 {
            Some(ContentView::StatusRequest)
        } else {
            None
        }
    } else if type_hi == 0x00 && type_lo == MT_LO_STATUS_BEGIN {
        if p.len() == 0 {
            Some(ContentView::StatusBegin)
        } else {
            None
        }
    } else if type_hi == 0x00 && type_lo == MT_LO_STATUS_FINISH {
        if p.len() == 0 {
            Some(ContentView::StatusFinish)
        } else {
            None
        }
    } else if type_hi == 0x00 && type_lo == MT_LO_SHOW_SIGNAL_ASPECT {
        if p.len() == 10 {
            match aspect_of_code(p[0]) {
                Some(main) => Some(ContentView::ShowSignalAspect {
                    aspect: SignalAspectView { main, reserved: p.subrange(1, 10) },
                }),
                None => None,
            }
        } else {
            None
        }
    } else if type_hi == 0x00 && type_lo == MT_LO_SIGNAL_ASPECT_STATUS {
        if p.len() == 10 {
            match aspect_of_code(p[0]) {
                Some(main) => Some(ContentView::SignalAspectStatus {
                    aspect: SignalAspectView { main, reserved: p.subrange(1, 10) },
                }),
                None => None,
            }
        } else {
            None
        }
    } else if type_hi == 0x00 && type_lo == MT_LO_CHANGE_BRIGHTNESS {
        if p.len() == 1 {
            match brightness_of_code(p[0]) {
                Some(brightness) => Some(ContentView::ChangeBrightness { brightness }),
                None => None,
            }
        } else {
            None
        }
    } else if type_hi == 0x00 && type_lo == MT_LO_BRIGHTNESS_STATUS {
        if p.len() == 1 {
            match brightness_of_code(p[0]) {
                Some(brightness) => Some(ContentView::BrightnessStatus { brightness }),
                None => None,
            }
        } else {
            None
        }
    } else if type_hi == 0x00 && type_lo == MT_LO_RELEASE_FOR_MAINTENANCE {
        if p.len() == 0 {
            Some(ContentView::ReleaseForMaintenance)
        } else {
            None
        }
    } else if type_hi == 0x00 && type_lo == MT_LO_CLOSE {
        if p.len() == 1 {
            Some(ContentView::Close { reason: p[0] })
        } else {
            None
        }
    } else {
        Some(ContentView::Unknown { type_hi, type_lo, payload: p })
    }
}

/// Telegram named by a byte sequence, if one is.
pub open spec fn spec_decode(b: Seq<u8>) -> Option<TelegramView> {
    if b.len() < HEADER_LEN {
        None
    } else if b.len() != HEADER_LEN + b[42] as int {
        None
    } else {
        match spec_parse_content(b[0], b[1], b.subrange(HEADER_LEN as int, b.len() as int)) {
            Some(content) => Some(TelegramView {
                sender: b.subrange(2, 22),
                receiver: b.subrange(22, 42),
                content,
            }),
            None => None,
        }
    }
}

/// Parsing a well-formed content's own type bytes and payload yields the
/// content again.
pub proof fn lemma_parse_content_roundtrip(c: ContentView)
    requires
        c.wf(),
    ensures
        spec_parse_content(content_type_hi(c), content_type_lo(c), spec_payload(c)) == Some(c),
{
    let p = spec_payload(c);
    match c {
        ContentView::VersionResponse { result, version, checksum } => {
            assert(p.len() == 3 + checksum.len());
            assert(p[2] == checksum.len() as u8);
            assert(p[2] as int == p.len() - 3);
            assert(p.subrange(3, p.len() as int) =~= checksum);
        },
        ContentView::ShowSignalAspect { aspect } => {
            assert(p.len() == 10);
            assert(p[0] == aspect_code(aspect.main));
            assert(p.subrange(1, 10) =~= aspect.reserved);
        },
        ContentView::SignalAspectStatus { aspect } => {
            assert(p.len() == 10);
            assert(p[0] == aspect_code(aspect.main));
            assert(p.subrange(1, 10) =~= aspect.reserved);
        },
        _ => {},
    }
}

/// Decoding the canonical encoding of any well-formed telegram yields the
/// telegram again.
pub proof fn lemma_decode_encode(t: TelegramView)
    requires
        t.wf(),
    ensures
        spec_decode(spec_encode(t)) == Some(t),
{
    let e = spec_encode(t);
    let p = spec_payload(t.content);
    lemma_payload_len(t.content);
    assert(e.len() == HEADER_LEN + p.len());
    assert(e[0] == content_type_hi(t.content));
    assert(e[1] == content_type_lo(t.content));
    assert(e[42] == p.len() as u8);
    assert(e[42] as int == p.len());
    assert(e.subrange(2, 22) =~= t.sender);
    assert(e.subrange(22, 42) =~= t.receiver);
    assert(e.subrange(HEADER_LEN as int, e.len() as int) =~= p);
    lemma_parse_content_roundtrip(t.content);
}

/// Appends all bytes of `src` to `dst`.
fn append_bytes(dst: &mut Vec<u8>, src: &Vec<u8>)
    ensures
        final(dst)@ == old(dst)@ + src@,
{
    let mut i: usize = 0;
    while i < src.len()
        invariant
            i <= src@.len(),
            dst@ =~= old(dst)@ + src@.subrange(0, i as int),
        decreases src@.len() - i,
    {
        dst.push(src[i]);
        i = i + 1;
    }
    proof {
        assert(dst@ =~= old(dst)@ + src@);
    }
}

/// Copies the bytes of `src` in positions `start..end` into a new vector.
fn copy_range(src: &Vec<u8>, start: usize, end: usize) -> (r: Vec<u8>)
    requires
        start <= end <= src@.len(),
    ensures
        r@ == src@.subrange(start as int, end as int),
{
    let mut r: Vec<u8> = Vec::new();
    let mut i: usize = start;
    while i < end
        invariant
            start <= i <= end <= src@.len(),
            r@ =~= src@.subrange(start as int, i as int),
        decreases end - i,
    {
        r.push(src[i]);
        i = i + 1;
    }
    r
}

/// High type byte of a content.
pub fn msg_type_hi(c: &Content) -> (b: u8)
    ensures
        b == content_type_hi(c@),
{
    match c {
        Content::Unknown { type_hi, .. } => *type_hi,
        _ => 0x00,
    }
}

/// Low type byte of a content.
pub fn msg_type_lo(c: &Content) -> (b: u8)
    ensures
        b == content_type_lo(c@),
{
    match c {
        Content::VersionRequest { .. } => MT_LO_VERSION_REQUEST,
        Content::VersionResponse { .. } => MT_LO_VERSION_RESPONSE,
        Content::StatusRequest => MT_LO_STATUS_REQUEST,
        Content::StatusBegin => MT_LO_STATUS_BEGIN,
        Content::StatusFinish => MT_LO_STATUS_FINISH,
        Content::ShowSignalAspect { .. } => MT_LO_SHOW_SIGNAL_ASPECT,
        Content::SignalAspectStatus { .. } => MT_LO_SIGNAL_ASPECT_STATUS,
        Content::ChangeBrightness { .. } => MT_LO_CHANGE_BRIGHTNESS,
        Content::BrightnessStatus { .. } => MT_LO_BRIGHTNESS_STATUS,
        Content::ReleaseForMaintenance => MT_LO_RELEASE_FOR_MAINTENANCE,
        Content::Close { .. } => MT_LO_CLOSE,
        Content::Unknown { type_lo, .. } => *type_lo,
    }
}

/// Builds the payload bytes of a content.
fn encode_payload(c: &Content) -> (r: Vec<u8>)
    requires
        c@.wf(),
    ensures
        r@ == spec_payload(c@),
{
    match c {
        Content::VersionRequest { version } => {
            let mut r: Vec<u8> = Vec::new();
            r.push(*version);
            proof {
                assert(r@ =~= spec_payload(c@));
            }
            r
        },
        Content::VersionResponse { result, version, checksum } => {
            let mut r: Vec<u8> = Vec::new();
            r.push(check_result_to_code(*result));
            r.push(*version);
            r.push(checksum.len() as u8);
            append_bytes(&mut r, checksum);
            proof {
                assert(r@ =~= spec_payload(c@));
            }
            r
        },
        Content::StatusRequest => {
            let r: Vec<u8> = Vec::new();
            proof {
                assert(r@ =~= spec_payload(c@));
            }
            r
        },
        Content::StatusBegin => {
            let r: Vec<u8> = Vec::new();
            proof {
                assert(r@ =~= spec_payload(c@));
            }
            r
        },
        Content::StatusFinish => {
            let r: Vec<u8> = Vec::new();
            proof {
                assert(r@ =~= spec_payload(c@));
            }
            r
        },
        Content::ShowSignalAspect { aspect } => {
            let mut r: Vec<u8> = Vec::new();
            r.push(main_aspect_to_code(aspect.main));
            append_bytes(&mut r, &aspect.reserved);
            proof {
                assert(r@ =~= spec_payload(c@));
            }
            r
        },
        Content::SignalAspectStatus { aspect } => {
            let mut r: Vec<u8> = Vec::new();
            r.push(main_aspect_to_code(aspect.main));
            append_bytes(&mut r, &aspect.reserved);
            proof {
                assert(r@ =~= spec_payload(c@));
            }
            r
        },
        Content::ChangeBrightness { brightness } => {
            let mut r: Vec<u8> = Vec::new();
            r.push(brightness_to_code(*brightness));
            proof {
                assert(r@ =~= spec_payload(c@));
            }
            r
        },
        Content::BrightnessStatus { brightness } => {
            let mut r: Vec<u8> = Vec::new();
            r.push(brightness_to_code(*brightness));
            proof {
                assert(r@ =~= spec_payload(c@));
            }
            r
        },
        Content::ReleaseForMaintenance => {
            let r: Vec<u8> = Vec::new();
            proof {
                assert(r@ =~= spec_payload(c@));
            }
            r
        },
        Content::Close { reason } => {
            let mut r: Vec<u8> = Vec::new();
            r.push(*reason);
            proof {
                assert(r@ =~= spec_payload(c@));
            }
            r
        },
        Content::Unknown { payload, .. } => {
            let r = copy_range(payload, 0, payload.len());
            proof {
                assert(r@ =~= spec_payload(c@));
            }
            r
        },
    }
}

/// Encodes a well-formed telegram into its canonical byte form.
pub fn encode(t: &Telegram) -> (r: Vec<u8>)
    requires
        t.wf(),
    ensures
        r@ == spec_encode(t@),
{
    let mut out: Vec<u8> = Vec::new();
    out.push(msg_type_hi(&t.content));
    out.push(msg_type_lo(&t.content));
    append_bytes(&mut out, &t.sender);
    append_bytes(&mut out, &t.receiver);
    let payload = encode_payload(&t.content);
    proof {
        lemma_payload_len(t.content@);
    }
    out.push(payload.len() as u8);
    append_bytes(&mut out, &payload);
    proof {
        assert(out@ =~= spec_encode(t@));
    }
    out
}

/// Parses the two type bytes and the payload into a content.
fn parse_content(type_hi: u8, type_lo: u8, p: Vec<u8>) -> (r: Result<Content, DecodeError>)
    ensures
        (r is Ok) == (spec_parse_content(type_hi, type_lo, p@) is Some),
        (r matches Ok(c) ==> spec_parse_content(type_hi, type_lo, p@) == Some(c@)),
{
    if type_hi == 0x00 && type_lo == MT_LO_VERSION_REQUEST {
        if p.len() == 1 {
            Ok(Content::VersionRequest { version: p[0] })
        } else {
            Err(DecodeError::MalformedTelegram)
        }
    } else if type_hi == 0x00 && type_lo == MT_LO_VERSION_RESPONSE {
        if p.len() >= 3 && p[2] as usize == p.len() - 3 {
            match check_result_from_code(p[0]) {
                Some(result) => {
                    let version = p[1];
                    let checksum = copy_range(&p, 3, p.len());
                    Ok(Content::VersionResponse { result, version, checksum })
                },
                None => Err(DecodeError::MalformedTelegram),
            }
        } else {
            Err(DecodeError::MalformedTelegram)
        }
    } else if type_hi == 0x00 && type_lo == MT_LO_STATUS_REQUEST {
        if p.len() == 0 {
            Ok(Content::StatusRequest)
        } else {
            Err(DecodeError::MalformedTelegram)
        }
    } else if type_hi == 0x00 && type_lo == MT_LO_STATUS_BEGIN {
        if p.len() == 0 {
            Ok(Content::StatusBegin)
        } else {
            Err(DecodeError::MalformedTelegram)
        }
    } else if type_hi == 0x00 && type_lo == MT_LO_STATUS_FINISH {
        if p.len() == 0 {
            Ok(Content::StatusFinish)
        } else {
            Err(DecodeError::MalformedTelegram)
        }
    } else if type_hi == 0x00 && type_lo == MT_LO_SHOW_SIGNAL_ASPECT {
        if p.len() == 10 {
            match main_aspect_from_code(p[0]) {
                Some(main) => {
                    let reserved = copy_range(&p, 1, 10);
                    Ok(Content::ShowSignalAspect { aspect: SignalAspect { main, reserved } })
                },
                None => Err(DecodeError::MalformedTelegram),
            }
        } else {
            Err(DecodeError::MalformedTelegram)
        }
    } else if type_hi == 0x00 && type_lo == MT_LO_SIGNAL_ASPECT_STATUS {
        if p.len() == 10 {
            match main_aspect_from_code(p[0]) {
                Some(main) => {
                    let reserved = copy_range(&p, 1, 10);
                    Ok(Content::SignalAspectStatus { aspect: SignalAspect { main, reserved } })
                },
                None => Err(DecodeError::MalformedTelegram),
            }
        } else {
            Err(DecodeError::MalformedTelegram)
        }
    } else if type_hi == 0x00 && type_lo == MT_LO_CHANGE_BRIGHTNESS {
        if p.len() == 1 {
            match brightness_from_code(p[0]) {
                Some(brightness) => Ok(Content::ChangeBrightness { brightness }),
                None => Err(DecodeError::MalformedTelegram),
            }
        } else {
            Err(DecodeError::MalformedTelegram)
        }
    } else if type_hi == 0x00 && type_lo == MT_LO_BRIGHTNESS_STATUS {
        if p.len() == 1 {
            match brightness_from_code(p[0]) {
                Some(brightness) => Ok(Content::BrightnessStatus { brightness }),
                None => Err(DecodeError::MalformedTelegram),
            }
        } else {
            Err(DecodeError::MalformedTelegram)
        }
    } else if type_hi == 0x00 && type_lo == MT_LO_RELEASE_FOR_MAINTENANCE {
        if p.len() == 0 {
            Ok(Content::ReleaseForMaintenance)
        } else {
            Err(DecodeError::MalformedTelegram)
        }
    } else if type_hi == 0x00 && type_lo == MT_LO_CLOSE {
        if p.len() == 1 {
            Ok(Content::Close { reason: p[0] })
        } else {
            Err(DecodeError::MalformedTelegram)
        }
    } else {
        Ok(Content::Unknown { type_hi, type_lo, payload: p })
    }
}

/// Decodes a byte sequence into a telegram.  Fails with
/// `MalformedTelegram` exactly on the byte sequences that name no
/// well-formed telegram.
pub fn decode(b: &Vec<u8>) -> (r: Result<Telegram, DecodeError>)
    ensures
        (r is Ok) == (spec_decode(b@) is Some),
        (r matches Ok(t) ==> spec_decode(b@) == Some(t@)),
        (r matches Ok(t) ==> t.wf()),
{
    if b.len() < HEADER_LEN {
        return Err(DecodeError::MalformedTelegram);
    }
    let plen = b[42] as usize;
    if b.len() != HEADER_LEN + plen {
        return Err(DecodeError::MalformedTelegram);
    }
    let sender = copy_range(b, 2, 22);
    let receiver = copy_range(b, 22, 42);
    let payload = copy_range(b, HEADER_LEN, b.len());
    match parse_content(b[0], b[1], payload) {
        Ok(content) => {
            let t = Telegram { sender, receiver, content };
            proof {
                lemma_decoded_wf(b@);
            }
            Ok(t)
        },
        Err(e) => Err(e),
    }
}

/// Every telegram a byte sequence names is well-formed.
proof fn lemma_decoded_wf(b: Seq<u8>)
    ensures
        spec_decode(b) matches Some(t) ==> t.wf(),
{
    if spec_decode(b) is Some {
        let p = b.subrange(HEADER_LEN as int, b.len() as int);
        assert(p.len() <= 255);
    }
}

} // verus!
