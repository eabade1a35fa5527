use vstd::prelude::*;

verus! {

/// The decimal digit character for `d`, which must be below ten.
pub open spec fn dec_digit_char(d: nat) -> char {
    if d == 0 {
        '0'
    } else if d == 1 {
        '1'
    } else if d == 2 {
        '2'
    } else if d == 3 {
        '3'
    } else if d == 4 {
        '4'
    } else if d == 5 {
        '5'
    } else if d == 6 {
        '6'
    } else if d == 7 {
        '7'
    } else if d == 8 {
        '8'
    } else {
        '9'
    }
}

/// The lower-case hexadecimal digit character for `d`, which must be below
/// sixteen.
pub open spec fn hex_digit_char(d: nat) -> char {
    if d < 10 {
        dec_digit_char(d)
    } else if d == 10 {
        'a'
    } else if d == 11 {
        'b'
    } else if d == 12 {
        'c'
    } else if d == 13 {
        'd'
    } else if d == 14 {
        'e'
    } else {
        'f'
    }
}

/// The decimal rendering of `n`: most significant digit first, no leading
/// zeros (`0` renders as the single digit `0`).
pub open spec fn dec_chars(n: nat) -> Seq<char>
    decreases n,
{
    if n < 10 {
        seq![dec_digit_char(n)]
    } else {
        dec_chars(n / 10) + seq![dec_digit_char(n % 10)]
    }
}

/// The lower-case hexadecimal rendering of `n`: most significant digit
/// first, no leading zeros.
pub open spec fn hex_chars(n: nat) -> Seq<char>
    decreases n,
{
    if n < 16 {
        seq![hex_digit_char(n)]
    } else {
        hex_chars(n / 16) + seq![hex_digit_char(n % 16)]
    }
}

/// The platform pointer notation for an address: `0x` followed by the
/// lower-case hexadecimal rendering of the address.
pub open spec fn addr_chars(n: nat) -> Seq<char> {
    seq!['0', 'x'] + hex_chars(n)
}

/// The shared diagnostic rendering of a pointee next to its data address:
/// the pointee's rendering, a ` @ ` separator, and the address in pointer
/// notation.
pub open spec fn pointee_at_addr_chars(value: Seq<char>, addr: nat) -> Seq<char> {
    value + seq![' ', '@', ' '] + addr_chars(addr)
}

fn dec_digit_str(d: u64) -> (r: &'static str)
    requires
        d < 10,
    ensures
        r@ == seq![dec_digit_char(d as nat)],
{
    let r: &'static str = if d == 0 {
        "0"
    } else if d == 1 {
        "1"
    } else if d == 2 {
        "2"
    } else if d == 3 {
        "3"
    } else if d == 4 {
        "4"
    } else if d == 5 {
        "5"
    } else if d == 6 {
        "6"
    } else if d == 7 {
        "7"
    } else if d == 8 {
        "8"
    } else {
        "9"
    };
    proof {
        reveal_strlit("0");
        reveal_strlit("1");
        reveal_strlit("2");
        reveal_strlit("3");
        reveal_strlit("4");
        reveal_strlit("5");
        reveal_strlit("6");
        reveal_strlit("7");
        reveal_strlit("8");
        reveal_strlit("9");
        assert(r@ =~= seq![dec_digit_char(d as nat)]);
    }
    r
}

fn hex_digit_str(d: usize) -> (r: &'static str)
    requires
        d < 16,
    ensures
        r@ == seq![hex_digit_char(d as nat)],
{
    let r: &'static str = if d < 10 {
        dec_digit_str(d as u64)
    } else if d == 10 {
        "a"
    } else if d == 11 {
        "b"
    } else if d == 12 {
        "c"
    } else if d == 13 {
        "d"
    } else if d == 14 {
        "e"
    } else {
        "f"
    };
    proof {
        reveal_strlit("a");
        reveal_strlit("b");
        reveal_strlit("c");
        reveal_strlit("d");
        reveal_strlit("e");
        reveal_strlit("f");
        assert(r@ =~= seq![hex_digit_char(d as nat)]);
    }
    r
}

/// Render `n` in decimal, most significant digit first.
pub fn dec_string(n: u64) -> (s: String)
    ensures
        s@ == dec_chars(n as nat),
    decreases n,
{
    if n < 10 {
        String::from_str(dec_digit_str(n))
    } else {
        let mut s = dec_string(n / 10);
        s.append(dec_digit_str(n % 10));
        proof {
            assert(s@ =~= dec_chars(n as nat));
        }
        s
    }
}

fn hex_string(n: usize) -> (s: String)
    ensures
        s@ == hex_chars(n as nat),
    decreases n,
{
    if n < 16 {
        String::from_str(hex_digit_str(n))
    } else {
        let mut s = hex_string(n / 16);
        s.append(hex_digit_str(n % 16));
        proof {
            assert(s@ =~= hex_chars(n as nat));
        }
        s
    }
}

/// Render a data address in the platform pointer notation: `0x` and then
/// lower-case hexadecimal digits.
pub fn addr_string(addr: usize) -> (s: String)
    ensures
        s@ == addr_chars(addr as nat),
{
    let mut s = String::from_str("0x");
    proof {
        reveal_strlit("0x");
        assert(s@ =~= seq!['0', 'x']);
    }
    let h = hex_string(addr);
    s.append(h.as_str());
    proof {
        assert(s@ =~= addr_chars(addr as nat));
    }
    s
}

/// The shared diagnostic adapter: emit a pointee's rendering followed by
/// ` @ ` and its data address in pointer notation.
pub fn pointee_at_addr(value_repr: &str, addr: usize) -> (s: String)
    ensures
        s@ == pointee_at_addr_chars(value_repr@, addr as nat),
{
    let mut s = String::from_str(value_repr);
    s.append(" @ ");
    proof {
        reveal_strlit(" @ ");
    }
    let a = addr_string(addr);
    s.append(a.as_str());
    proof {
        assert(s@ =~= pointee_at_addr_chars(value_repr@, addr as nat));
    }
    s
}

/// What a pointee must offer for a wrapper around it to have a diagnostic
/// rendering: a rendering of itself as text, pinned down by its
/// specification.
pub trait RenderPointee {
    /// The pointee's rendering, as a sequence of characters.
    spec fn repr(&self) -> Seq<char>;

    /// Render the pointee.
    fn render(&self) -> (s: String)
        ensures
            s@ == self.repr(),
    ;
}

impl RenderPointee for u64 {
    open spec fn repr(&self) -> Seq<char> {
        dec_chars(*self as nat)
    }

    fn render(&self) -> (s: String)
        ensures
            s@ == self.repr(),
    {
        dec_string(*self)
    }
}

} // verus!
