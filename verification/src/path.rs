use vstd::prelude::*;

verus! {

use vstd::string::*;
use crate::errors::WalletError;

/// One step of a derivation path: a 31-bit child index, taken hardened or
/// normal.
#[derive(Clone, Copy, Debug, PartialEq, Eq, Structural)]
pub struct PathSegment {
    pub index: u32,
    pub hardened: bool,
}

/// A parsed derivation path: its segments in root-to-leaf order. An empty
/// path names the root key itself.
#[derive(Debug)]
pub struct DerivationPath {
    pub segments: Vec<PathSegment>,
}

impl View for DerivationPath {
    type V = Seq<PathSegment>;

    open spec fn view(&self) -> Seq<PathSegment> {
        self.segments@
    }
}

/// Every segment's index fits the 31-bit range.
pub open spec fn segments_wf(segs: Seq<PathSegment>) -> bool {
    forall|k: int| 0 <= k < segs.len() ==> (#[trigger] segs[k]).index < 0x80000000
}

/// An ASCII decimal digit.
pub open spec fn is_digit_byte(b: u8) -> bool {
    48 <= b <= 57
}

/// The decimal value of a digit run.
pub open spec fn digits_value(s: Seq<u8>) -> int
    decreases s.len(),
{
    if s.len() == 0 {
        0
    } else {
        digits_value(s.drop_last()) * 10 + (s.last() - 48)
    }
}

/// The first position at or after `i` that does not hold a digit.
pub open spec fn digits_end(s: Seq<u8>, i: int) -> int
    decreases s.len() - i,
        when 0 <= i <= s.len()
{
    if i < s.len() && is_digit_byte(s[i]) {
        digits_end(s, i + 1)
    } else {
        i
    }
}

pub proof fn lemma_digits_end_bounds(s: Seq<u8>, i: int)
    requires
        0 <= i <= s.len(),
    ensures
        i <= digits_end(s, i) <= s.len(),
        forall|k: int| i <= k < digits_end(s, i) ==> is_digit_byte(#[trigger] s[k]),
        digits_end(s, i) < s.len() ==> !is_digit_byte(s[digits_end(s, i)]),
    decreases s.len() - i,
{
    if i < s.len() && is_digit_byte(s[i]) {
        lemma_digits_end_bounds(s, i + 1);
    }
}

pub proof fn lemma_digits_end_agrees(s: Seq<u8>, i: int, j: int)
    requires
        0 <= i <= j <= s.len(),
        forall|k: int| i <= k < j ==> is_digit_byte(#[trigger] s[k]),
        j < s.len() ==> !is_digit_byte(s[j]),
    ensures
        digits_end(s, i) == j,
    decreases j - i,
{
    if i < j {
        lemma_digits_end_agrees(s, i + 1, j);
    }
}

/// The segments encoded from position `i` on (just after a separator): a run
/// of digits whose value fits 31 bits, an optional hardening marker (an
/// apostrophe or an `h`), then either the end of the string or a slash and
/// further segments.
pub open spec fn parse_segments(s: Seq<u8>, i: int) -> Option<Seq<PathSegment>>
    decreases s.len() - i,
        when 0 <= i <= s.len()
        via parse_segments_decreases
{
    let e = digits_end(s, i);
    if e == i {
        None
    } else if digits_value(s.subrange(i, e)) >= 0x80000000 {
        None
    } else {
        let hardened = e < s.len() && (s[e] == 39 || s[e] == 104);
        let j = if hardened {
            e + 1
        } else {
            e
        };
        let seg = PathSegment { index: digits_value(s.subrange(i, e)) as u32, hardened };
        if j == s.len() {
            Some(seq![seg])
        } else if s[j] == 47 {
            match parse_segments(s, j + 1) {
                None => None,
                Some(rest) => Some(seq![seg] + rest),
            }
        } else {
            None
        }
    }
}

#[via_fn]
proof fn parse_segments_decreases(s: Seq<u8>, i: int) {
    lemma_digits_end_bounds(s, i);
}

/// The path encoded by a byte string: the root marker `m`, then either
/// nothing (the root itself) or a slash and one or more segments.
pub open spec fn parse_path_spec(s: Seq<u8>) -> Option<Seq<PathSegment>> {
    if s.len() == 0 || s[0] != 109 {
        None
    } else if s.len() == 1 {
        Some(Seq::empty())
    } else if s[1] != 47 {
        None
    } else {
        parse_segments(s, 2)
    }
}

impl DerivationPath {
    /// The number of segments.
    pub fn len(&self) -> (r: usize)
        ensures
            r == self@.len(),
    {
        self.segments.len()
    }

    /// The segment at position `i`.
    pub fn segment(&self, i: usize) -> (r: PathSegment)
        requires
            i < self@.len(),
        ensures
            r == self@[i as int],
    {
        self.segments[i]
    }
}

/// Parse a path string. Accepts exactly the strings of the grammar above;
/// everything else is rejected with `InvalidDerivationPath`.
pub fn parse_path(s: &str) -> (r: Result<DerivationPath, WalletError>)
    ensures
        match r {
            Ok(p) => parse_path_spec(s.spec_bytes()) == Some(p@) && segments_wf(p@),
            Err(e) => parse_path_spec(s.spec_bytes()) is None && e
                == WalletError::InvalidDerivationPath,
        },
{
    let bytes = s.as_bytes_vec();
    let n = bytes.len();
    if n == 0 || bytes[0] != 109 {
        return Err(WalletError::InvalidDerivationPath);
    }
    if n == 1 {
        let p = DerivationPath { segments: Vec::new() };
        proof {
            assert(p@ =~= Seq::<PathSegment>::empty());
        }
        return Ok(p);
    }
    if bytes[1] != 47 {
        return Err(WalletError::InvalidDerivationPath);
    }
    let mut segments: Vec<PathSegment> = Vec::new();
    let mut i: usize = 2;
    proof {
        assert(segments@ + parse_segments(bytes@, 2)->Some_0 =~= parse_segments(
            bytes@,
            2,
        )->Some_0);
    }
    loop
        invariant
            2 <= i <= n,
            n == bytes@.len(),
            bytes@ == s.spec_bytes(),
            segments_wf(segments@),
            ({
                let tail = parse_segments(bytes@, i as int);
                parse_path_spec(bytes@) == match tail {
                    None => None::<Seq<PathSegment>>,
                    Some(rest) => Some(segments@ + rest),
                }
            }),
        decreases n - i,
    {
        let start = i;
        let mut value: u64 = 0;
        let mut over = false;
        while i < n && bytes[i] >= 48 && bytes[i] <= 57
            invariant
                start <= i <= n,
                n == bytes@.len(),
                forall|k: int| start <= k < i ==> is_digit_byte(#[trigger] bytes@[k]),
                !over ==> value == digits_value(bytes@.subrange(start as int, i as int)) && value
                    < 0x80000000,
                over ==> digits_value(bytes@.subrange(start as int, i as int)) >= 0x80000000,
            decreases n - i,
        {
            let d = bytes[i] - 48;
            let ghost prefix = bytes@.subrange(start as int, i as int);
            let ghost extended = bytes@.subrange(start as int, i as int + 1);
            proof {
                assert(extended.drop_last() =~= prefix);
                assert(extended.last() == bytes@[i as int]);
                if over {
                    assert(digits_value(prefix) * 10 + (bytes@[i as int] - 48) >= digits_value(
                        prefix,
                    )) by (nonlinear_arith)
                        requires
                            digits_value(prefix) >= 0x80000000,
                            48 <= bytes@[i as int] <= 57,
                    ;
                }
            }
            if !over {
                let next = value * 10 + (d as u64);
                if next < 0x80000000 {
                    value = next;
                } else {
                    over = true;
                }
            }
            i = i + 1;
        }
        proof {
            lemma_digits_end_agrees(bytes@, start as int, i as int);
        }
        let ghost e = i as int;
        if i == start {
            return Err(WalletError::InvalidDerivationPath);
        }
        if over {
            return Err(WalletError::InvalidDerivationPath);
        }
        let mut hardened = false;
        if i < n && (bytes[i] == 39 || bytes[i] == 104) {
            hardened = true;
            i = i + 1;
        }
        let seg = PathSegment { index: value as u32, hardened };
        let ghost old_segments = segments@;
        segments.push(seg);
        if i == n {
            proof {
                assert(parse_segments(bytes@, start as int) == Some(seq![seg]));
                assert(old_segments + seq![seg] =~= segments@);
            }
            return Ok(DerivationPath { segments });
        }
        if bytes[i] != 47 {
            return Err(WalletError::InvalidDerivationPath);
        }
        i = i + 1;
        proof {
            let tail = parse_segments(bytes@, i as int);
            match tail {
                None => {
                    assert(parse_segments(bytes@, start as int) is None);
                },
                Some(rest) => {
                    assert(parse_segments(bytes@, start as int) == Some(seq![seg] + rest));
                    assert(old_segments + (seq![seg] + rest) =~= segments@ + rest);
                },
            }
        }
    }
}

} // verus!
