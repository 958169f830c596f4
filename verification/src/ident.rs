//! Identifiers for records that are created locally, without the server.
//!
//! A generator hands out one serial number per call and stamps each
//! identifier with whatever the clock and the entropy source gave. The serial
//! alone makes identifiers of one generator differ; stamp and nonce make a
//! clash between two runs of the application unlikely. Written out, a local
//! identifier starts with a prefix of its own, by which it is told from an id
//! that the server assigned.
use vstd::prelude::*;
use vstd::string::StringExecFns;
use vstd::string::StrSliceExecFns;

verus! {

/// An identifier made on this machine.
#[derive(Debug, Clone, Copy, PartialEq, Eq, Structural, Hash)]
pub struct LocalId {
    /// What the clock gave, or 0 where there was no clock.
    pub stamp: u64,
    /// What the entropy source gave, or 0 where there was none.
    pub nonce: u64,
    /// The generator's serial number for this identifier.
    pub serial: u64,
}

/// The number of values of a serial.
pub open spec fn serial_space() -> nat {
    0x1_0000_0000_0000_0000
}

/// The serial that a generator hands out `calls` calls after the one at which
/// it handed out `start`: serials count up and start again at 0 after the
/// largest.
pub open spec fn serial_after(start: u64, calls: nat) -> u64 {
    ((start as nat + calls) % serial_space()) as u64
}

/// The identifier that is made with serial `serial` from what the clock and
/// the entropy source gave.
pub open spec fn issued(serial: u64, clock: Option<u64>, entropy: Option<u64>) -> LocalId {
    LocalId {
        stamp: match clock {
            Some(t) => t,
            None => 0,
        },
        nonce: match entropy {
            Some(n) => n,
            None => 0,
        },
        serial,
    }
}

/// The source of local identifiers.
#[derive(Debug)]
pub struct IdGenerator {
    next: u64,
}

impl IdGenerator {
    /// The serial of the identifier that the next call makes.
    pub closed spec fn next_serial(&self) -> u64 {
        self.next
    }

    /// A generator whose first identifier has the serial `seed`.
    pub fn new(seed: u64) -> (r: IdGenerator)
        ensures
            r.next_serial() == seed,
    {
        IdGenerator { next: seed }
    }

    /// Makes an identifier. `clock` and `entropy` are what the two sources
    /// gave, or `None` where a source was not to be had: the call succeeds
    /// either way.
    pub fn new_id(&mut self, clock: Option<u64>, entropy: Option<u64>) -> (id: LocalId)
        ensures
            id == issued(old(self).next_serial(), clock, entropy),
            final(self).next_serial() == serial_after(old(self).next_serial(), 1),
    {
        let serial = self.next;
        self.next = if serial == u64::MAX {
            0
        } else {
            serial + 1
        };
        LocalId {
            stamp: match clock {
                Some(t) => t,
                None => 0,
            },
            nonce: match entropy {
                Some(n) => n,
                None => 0,
            },
            serial,
        }
    }
}

/// Counting on by `a` calls and then by `b` is counting on by `a + b`.
pub proof fn serial_after_adds_up(start: u64, a: nat, b: nat)
    ensures
        serial_after(serial_after(start, a), b) == serial_after(start, a + b),
{
    let m = serial_space() as int;
    let x = start as int + a as int;
    vstd::arithmetic::div_mod::lemma_add_mod_noop(x, b as int, m);
    vstd::arithmetic::div_mod::lemma_mod_twice(x, m);
    vstd::arithmetic::div_mod::lemma_add_mod_noop(x % m, b as int, m);
}

/// Identifiers of one generator differ: two calls that are fewer than
/// 2^64 calls apart hand out different serials, whatever the sources gave.
pub proof fn serials_differ(start: u64, a: nat, b: nat)
    requires
        a < b,
        b - a < serial_space(),
    ensures
        serial_after(start, a) != serial_after(start, b),
{
    let m = serial_space() as int;
    let x = start as int + a as int;
    let y = start as int + b as int;
    if x % m == y % m {
        vstd::arithmetic::div_mod::lemma_fundamental_div_mod(x, m);
        vstd::arithmetic::div_mod::lemma_fundamental_div_mod(y, m);
    }
}

/// The prefix of every local identifier in writing.
pub open spec fn local_prefix() -> Seq<char> {
    seq!['l', 'o', 'c', 'a', 'l', '-']
}

/// The hexadecimal digit for `d`.
pub open spec fn hex_char(d: nat) -> char {
    if d == 0 {
        '0'
    } else if d == 1 {
        '1'
    } else if d == 2 {
        '2'
    } else if d == 3 {
        '3'
    } else if d == 4 {
        '4'
    } else if d == 5 {
        '5'
    } else if d == 6 {
        '6'
    } else if d == 7 {
        '7'
    } else if d == 8 {
        '8'
    } else if d == 9 {
        '9'
    } else if d == 10 {
        'a'
    } else if d == 11 {
        'b'
    } else if d == 12 {
        'c'
    } else if d == 13 {
        'd'
    } else if d == 14 {
        'e'
    } else {
        'f'
    }
}

/// The last `width` hexadecimal digits of `x`, the most significant first.
pub open spec fn hex_digits(x: nat, width: nat) -> Seq<char>
    decreases width,
{
    if width == 0 {
        Seq::empty()
    } else {
        hex_digits(x / 16, (width - 1) as nat).push(hex_char(x % 16))
    }
}

/// A local identifier in writing: the prefix, then stamp, nonce and serial,
/// each as sixteen hexadecimal digits, with a hyphen between them.
pub open spec fn id_text(id: LocalId) -> Seq<char> {
    local_prefix() + hex_digits(id.stamp as nat, 16) + seq!['-'] + hex_digits(id.nonce as nat, 16)
        + seq!['-'] + hex_digits(id.serial as nat, 16)
}

/// Whether `text` starts with the prefix of local identifiers.
pub open spec fn has_local_prefix(text: Seq<char>) -> bool {
    text.len() >= 6 && text.subrange(0, 6) == local_prefix()
}

/// The one-letter text of the hexadecimal digit for `d`.
fn hex_str(d: u8) -> (r: &'static str)
    requires
        d < 16,
    ensures
        r@ == seq![hex_char(d as nat)],
{
    proof {
        reveal_strlit("0");
        reveal_strlit("1");
        reveal_strlit("2");
        reveal_strlit("3");
        reveal_strlit("4");
        reveal_strlit("5");
        reveal_strlit("6");
        reveal_strlit("7");
        reveal_strlit("8");
        reveal_strlit("9");
        reveal_strlit("a");
        reveal_strlit("b");
        reveal_strlit("c");
        reveal_strlit("d");
        reveal_strlit("e");
        reveal_strlit("f");
    }
    let r = match d {
        0 => "0",
        1 => "1",
        2 => "2",
        3 => "3",
        4 => "4",
        5 => "5",
        6 => "6",
        7 => "7",
        8 => "8",
        9 => "9",
        10 => "a",
        11 => "b",
        12 => "c",
        13 => "d",
        14 => "e",
        _ => "f",
    };
    r
}

/// Appends the last `width` hexadecimal digits of `x` to `out`.
fn push_hex(out: &mut String, x: u64, width: u8)
    ensures
        final(out)@ == old(out)@ + hex_digits(x as nat, width as nat),
    decreases width,
{
    if width > 0 {
        push_hex(out, x / 16, width - 1);
        out.append(hex_str((x % 16) as u8));
    }
}

impl LocalId {
    /// The identifier in writing.
    pub fn to_text(&self) -> (r: String)
        ensures
            r@ == id_text(*self),
    {
        proof {
            reveal_strlit("local-");
            reveal_strlit("-");
        }
        let mut out = String::from_str("local-");
        push_hex(&mut out, self.stamp, 16);
        out.append("-");
        push_hex(&mut out, self.nonce, 16);
        out.append("-");
        push_hex(&mut out, self.serial, 16);
        out
    }
}

/// Whether `text` is written as a local identifier is: whether it starts with
/// their prefix. An id that the server assigned is one that does not.
pub fn is_local_text(text: &str) -> (r: bool)
    ensures
        r == has_local_prefix(text@),
{
    proof {
        reveal_strlit("local-");
    }
    let prefix = "local-";
    if text.unicode_len() < 6 {
        return false;
    }
    let mut i: usize = 0;
    while i < 6
        invariant
            i <= 6,
            text@.len() >= 6,
            prefix@ == local_prefix(),
            forall|a: int| 0 <= a < i ==> text@[a] == local_prefix()[a],
        decreases 6 - i,
    {
        if text.get_char(i) != prefix.get_char(i) {
            return false;
        }
        i += 1;
    }
    assert(text@.subrange(0, 6) =~= local_prefix());
    true
}

/// `width` digits are `width` letters.
pub proof fn lemma_hex_len(x: nat, width: nat)
    ensures
        hex_digits(x, width).len() == width,
    decreases width,
{
    if width > 0 {
        lemma_hex_len(x / 16, (width - 1) as nat);
    }
}

/// The number of values that `width` hexadecimal digits can tell apart.
pub open spec fn hex_space(width: nat) -> nat
    decreases width,
{
    if width == 0 {
        1
    } else {
        16 * hex_space((width - 1) as nat)
    }
}

/// Numbers that fit in `width` digits and are written alike are equal.
pub proof fn lemma_hex_injective(x: nat, y: nat, width: nat)
    requires
        x < hex_space(width),
        y < hex_space(width),
        hex_digits(x, width) == hex_digits(y, width),
    ensures
        x == y,
    decreases width,
{
    if width > 0 {
        let w = (width - 1) as nat;
        let a = hex_digits(x / 16, w).push(hex_char(x % 16));
        let b = hex_digits(y / 16, w).push(hex_char(y % 16));
        assert(a.last() == b.last());
        assert(a.drop_last() =~= hex_digits(x / 16, w));
        assert(b.drop_last() =~= hex_digits(y / 16, w));
        lemma_hex_injective(x / 16, y / 16, w);
    }
}

/// Every local identifier in writing starts with the prefix, and different
/// identifiers are written differently.
pub proof fn text_tells_ids_apart(a: LocalId, b: LocalId)
    ensures
        has_local_prefix(id_text(a)),
        id_text(a).len() == 56,
        id_text(a) == id_text(b) ==> a == b,
{
    lemma_hex_len(a.stamp as nat, 16);
    lemma_hex_len(a.nonce as nat, 16);
    lemma_hex_len(a.serial as nat, 16);
    lemma_hex_len(b.stamp as nat, 16);
    lemma_hex_len(b.nonce as nat, 16);
    lemma_hex_len(b.serial as nat, 16);
    let ta = id_text(a);
    let tb = id_text(b);
    assert(ta.subrange(0, 6) =~= local_prefix());
    assert(ta.subrange(6, 22) =~= hex_digits(a.stamp as nat, 16));
    assert(ta.subrange(23, 39) =~= hex_digits(a.nonce as nat, 16));
    assert(ta.subrange(40, 56) =~= hex_digits(a.serial as nat, 16));
    assert(tb.subrange(6, 22) =~= hex_digits(b.stamp as nat, 16));
    assert(tb.subrange(23, 39) =~= hex_digits(b.nonce as nat, 16));
    assert(tb.subrange(40, 56) =~= hex_digits(b.serial as nat, 16));
    if ta == tb {
        assert(hex_space(16) == 0x1_0000_0000_0000_0000) by {
            reveal_with_fuel(hex_space, 17);
        }
        lemma_hex_injective(a.stamp as nat, b.stamp as nat, 16);
        lemma_hex_injective(a.nonce as nat, b.nonce as nat, 16);
        lemma_hex_injective(a.serial as nat, b.serial as nat, 16);
    }
}

} // verus!
