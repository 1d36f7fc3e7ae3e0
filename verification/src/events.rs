//! Domain events and the multiplexer's translation step.
//!
//! Every device source is mapped into one tagged union,
//! [`DomainEvent`], before it reaches the broadcast hub.  The
//! multiplexer is purely translational: all resilience lives in the
//! per-source decoders, and ordering across sources is availability
//! order only.

use vstd::prelude::*;
use vstd::string::StringExecFns;

verus! {

/// What an NFC card read delivered, as handed over by the external
/// NFC collaborator.
pub enum CardDetail {
    /// A card carrying a well-formed account UUID.
    MeteUuid(String),
    /// A card identified only by its raw UID bytes.
    Plain(Vec<u8>),
}

/// Kind tag of an NFC event.
#[derive(Clone, Copy, PartialEq, Eq, Structural)]
pub enum NfcKind {
    /// A card with an account UUID.
    Uuid,
    /// A card identified by its raw UID.
    Plain,
    /// No card present.
    Missing,
    /// The card could not be read.
    Invalid,
}

/// One event of the unified stream, immutable once constructed and
/// cheaply duplicable for fan-out.
#[derive(Clone)]
pub enum DomainEvent {
    /// An NFC card read.
    Nfc {
        /// What kind of read it was.
        kind: NfcKind,
        /// UUID text, lowercase-hex UID, or empty, depending on `kind`.
        id: String,
    },
    /// A completed barcode scan.
    Barcode {
        /// The scanned digit string.
        digits: String,
    },
    /// A deliberate cancel gesture.
    Storno,
}

/// Mathematical shape of a [`DomainEvent`]: the same tags over
/// character sequences.
pub enum EventView {
    /// An NFC card read.
    Nfc { kind: NfcKind, id: Seq<char> },
    /// A completed barcode scan.
    Barcode { digits: Seq<char> },
    /// A deliberate cancel gesture.
    Storno,
}

impl View for DomainEvent {
    type V = EventView;

    open spec fn view(&self) -> EventView {
        match self {
            DomainEvent::Nfc { kind, id } => EventView::Nfc { kind: *kind, id: id@ },
            DomainEvent::Barcode { digits } => EventView::Barcode { digits: digits@ },
            DomainEvent::Storno => EventView::Storno,
        }
    }
}

/// One item from one of the multiplexer's source streams.
pub enum SourceItem {
    /// An NFC read; absence means the card could not be read.
    Nfc(Option<CardDetail>),
    /// A completed barcode.
    Barcode(String),
    /// A cancel gesture.
    Storno,
}

/// The lowercase hex digit for `n` (0 to 15).
pub open spec fn hex_digit(n: u8) -> char
    recommends
        n < 16,
{
    if n == 0 {
        '0'
    } else if n == 1 {
        '1'
    } else if n == 2 {
        '2'
    } else if n == 3 {
        '3'
    } else if n == 4 {
        '4'
    } else if n == 5 {
        '5'
    } else if n == 6 {
        '6'
    } else if n == 7 {
        '7'
    } else if n == 8 {
        '8'
    } else if n == 9 {
        '9'
    } else if n == 10 {
        'a'
    } else if n == 11 {
        'b'
    } else if n == 12 {
        'c'
    } else if n == 13 {
        'd'
    } else if n == 14 {
        'e'
    } else {
        'f'
    }
}

/// Lowercase hex encoding of a byte sequence, two digits per byte,
/// most significant nibble first.
pub open spec fn hex_of(b: Seq<u8>) -> Seq<char>
    decreases b.len(),
{
    if b.len() == 0 {
        Seq::empty()
    } else {
        seq![hex_digit(b[0] / 16), hex_digit(b[0] % 16)] + hex_of(b.skip(1))
    }
}

/// Append the lowercase hex digit for `n` (0 to 15) to `s`.
fn push_hex_digit(s: &mut String, n: u8)
    requires
        n < 16,
    ensures
        final(s)@ == old(s)@.push(hex_digit(n)),
{
    proof {
        reveal_strlit("0");
        reveal_strlit("1");
        reveal_strlit("2");
        reveal_strlit("3");
        reveal_strlit("4");
        reveal_strlit("5");
        reveal_strlit("6");
        reveal_strlit("7");
        reveal_strlit("8");
        reveal_strlit("9");
        reveal_strlit("a");
        reveal_strlit("b");
        reveal_strlit("c");
        reveal_strlit("d");
        reveal_strlit("e");
        reveal_strlit("f");
    }
    match n {
        0 => s.append("0"),
        1 => s.append("1"),
        2 => s.append("2"),
        3 => s.append("3"),
        4 => s.append("4"),
        5 => s.append("5"),
        6 => s.append("6"),
        7 => s.append("7"),
        8 => s.append("8"),
        9 => s.append("9"),
        10 => s.append("a"),
        11 => s.append("b"),
        12 => s.append("c"),
        13 => s.append("d"),
        14 => s.append("e"),
        _ => s.append("f"),
    }
    proof {
        assert(s@ =~= old(s)@.push(hex_digit(n)));
    }
}

/// Lowercase hex encoding of `bytes`, two digits per byte.
pub fn to_hex(bytes: &[u8]) -> (r: String)
    ensures
        r@ == hex_of(bytes@),
{
    let mut s = String::new();
    let mut i: usize = 0;
    proof {
        assert(bytes@.skip(0) =~= bytes@);
    }
    while i < bytes.len()
        invariant
            0 <= i <= bytes@.len(),
            s@ + hex_of(bytes@.skip(i as int)) == hex_of(bytes@),
        decreases bytes@.len() - i,
    {
        let b = bytes[i];
        let ghost pre = s@;
        push_hex_digit(&mut s, b / 16);
        push_hex_digit(&mut s, b % 16);
        proof {
            assert(bytes@.skip(i as int).skip(1) =~= bytes@.skip(i + 1));
            assert(s@ =~= pre + seq![hex_digit(b / 16), hex_digit(b % 16)]);
            assert(s@ + hex_of(bytes@.skip(i + 1)) =~= pre + hex_of(bytes@.skip(i as int)));
        }
        i = i + 1;
    }
    proof {
        assert(bytes@.skip(bytes@.len() as int) =~= Seq::<u8>::empty());
        assert(s@ =~= hex_of(bytes@));
    }
    s
}

/// The domain event for one NFC read: a missing or unreadable card
/// maps to an invalid read with an empty id, a UUID card carries its
/// UUID, and a plain card carries its UID as lowercase hex.
pub open spec fn spec_nfc_event(card: Option<CardDetail>) -> EventView {
    match card {
        Option::None => EventView::Nfc { kind: NfcKind::Invalid, id: Seq::empty() },
        Option::Some(CardDetail::MeteUuid(uuid)) => EventView::Nfc {
            kind: NfcKind::Uuid,
            id: uuid@,
        },
        Option::Some(CardDetail::Plain(uid)) => EventView::Nfc {
            kind: NfcKind::Plain,
            id: hex_of(uid@),
        },
    }
}

/// The domain event for one source item.
pub open spec fn spec_mux_event(item: SourceItem) -> EventView {
    match item {
        SourceItem::Nfc(card) => spec_nfc_event(card),
        SourceItem::Barcode(digits) => EventView::Barcode { digits: digits@ },
        SourceItem::Storno => EventView::Storno,
    }
}

/// Map one NFC read into the unified event type.
pub fn nfc_to_event(card: Option<CardDetail>) -> (r: DomainEvent)
    ensures
        r@ == spec_nfc_event(card),
{
    match card {
        None => DomainEvent::Nfc { kind: NfcKind::Invalid, id: String::new() },
        Some(CardDetail::MeteUuid(uuid)) => DomainEvent::Nfc { kind: NfcKind::Uuid, id: uuid },
        Some(CardDetail::Plain(uid)) => DomainEvent::Nfc {
            kind: NfcKind::Plain,
            id: to_hex(uid.as_slice()),
        },
    }
}

/// The multiplexer's translation step: map whichever source delivered
/// an item into the unified event type.
pub fn mux_event(item: SourceItem) -> (r: DomainEvent)
    ensures
        r@ == spec_mux_event(item),
{
    match item {
        SourceItem::Nfc(card) => nfc_to_event(card),
        SourceItem::Barcode(digits) => DomainEvent::Barcode { digits },
        SourceItem::Storno => DomainEvent::Storno,
    }
}

/// The wire-level event type name of an event.
pub open spec fn spec_type_name(v: EventView) -> Seq<char> {
    match v {
        EventView::Nfc { kind, id } => match kind {
            NfcKind::Uuid => "nfc-uuid"@,
            NfcKind::Plain => "nfc-plain"@,
            NfcKind::Missing => "nfc-missing"@,
            NfcKind::Invalid => "nfc-invalid"@,
        },
        EventView::Barcode { digits } => "barcode"@,
        EventView::Storno => "storno"@,
    }
}

/// The wire-level payload of an event: the NFC id, the barcode
/// digits, or empty for a storno trigger.
pub open spec fn spec_event_id(v: EventView) -> Seq<char> {
    match v {
        EventView::Nfc { kind, id } => id,
        EventView::Barcode { digits } => digits,
        EventView::Storno => Seq::empty(),
    }
}

/// Translate an event into its wire shape, a named event type and a
/// payload string, for the transport layer outside this crate.
pub fn to_message(ev: &DomainEvent) -> (r: (String, String))
    ensures
        r.0@ == spec_type_name(ev@),
        r.1@ == spec_event_id(ev@),
{
    match ev {
        DomainEvent::Nfc { kind, id } => {
            let name = match kind {
                NfcKind::Uuid => String::from_str("nfc-uuid"),
                NfcKind::Plain => String::from_str("nfc-plain"),
                NfcKind::Missing => String::from_str("nfc-missing"),
                NfcKind::Invalid => String::from_str("nfc-invalid"),
            };
            (name, id.clone())
        },
        DomainEvent::Barcode { digits } => (String::from_str("barcode"), digits.clone()),
        DomainEvent::Storno => (String::from_str("storno"), String::new()),
    }
}

} // verus!
