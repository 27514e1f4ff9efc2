//! Stable source ids and runtime element names.
//!
//! The source bound to cell `n` has the stable id `src_<n>`; its RTSP
//! runtime element is named `rtsp_src_<n>` and the watchdog nested in
//! that element `rtsp_src_<n>_watchdog`.  This naming convention is the
//! sole mechanism by which an asynchronous runtime event is mapped back
//! to a source, so the names are pinned down exactly, and distinct cells
//! are proved to get distinct ids.

use vstd::prelude::*;

verus! {

/// Decimal digits of `n`, most significant first, as ASCII bytes.
pub open spec fn spec_decimal(n: nat) -> Seq<u8>
    decreases n,
{
    if n < 10 {
        seq![(48 + n) as u8]
    } else {
        spec_decimal(n / 10) + seq![(48 + n % 10) as u8]
    }
}

/// The reserved id prefix: `src_`.
pub open spec fn spec_src_prefix() -> Seq<u8> {
    seq![115u8, 114u8, 99u8, 95u8]
}

/// The reserved prefix that RTSP runtime element names carry: `rtsp_`.
pub open spec fn spec_rtsp_prefix() -> Seq<u8> {
    seq![114u8, 116u8, 115u8, 112u8, 95u8]
}

/// The suffix that a source's nested watchdog element carries: `_watchdog`.
pub open spec fn spec_watchdog_suffix() -> Seq<u8> {
    seq![95u8, 119u8, 97u8, 116u8, 99u8, 104u8, 100u8, 111u8, 103u8]
}

/// The stable id of the source in cell `index`: `src_<index>`.
pub open spec fn spec_source_id(index: nat) -> Seq<u8> {
    spec_src_prefix() + spec_decimal(index)
}

/// The runtime element name of the RTSP source in cell `index`.
pub open spec fn spec_rtsp_element_name(index: nat) -> Seq<u8> {
    spec_rtsp_prefix() + spec_source_id(index)
}

/// The runtime element name of that source's watchdog.
pub open spec fn spec_watchdog_element_name(index: nat) -> Seq<u8> {
    spec_rtsp_element_name(index) + spec_watchdog_suffix()
}

/// Appends the decimal digits of `n` to `out`.
pub fn push_decimal(out: &mut Vec<u8>, n: usize)
    ensures
        final(out)@ == old(out)@ + spec_decimal(n as nat),
    decreases n,
{
    if n < 10 {
        out.push(48 + n as u8);
    } else {
        push_decimal(out, n / 10);
        let digit: usize = n % 10;
        out.push(48 + digit as u8);
        proof {
            assert(out@ =~= old(out)@ + spec_decimal(n as nat));
        }
    }
}

/// The reserved id prefix `src_` as a byte string.
pub fn src_prefix() -> (r: Vec<u8>)
    ensures
        r@ == spec_src_prefix(),
{
    let mut v: Vec<u8> = Vec::new();
    v.push(115);
    v.push(114);
    v.push(99);
    v.push(95);
    proof {
        assert(v@ =~= spec_src_prefix());
    }
    v
}

/// The reserved element-name prefix `rtsp_` as a byte string.
pub fn rtsp_prefix() -> (r: Vec<u8>)
    ensures
        r@ == spec_rtsp_prefix(),
{
    let mut v: Vec<u8> = Vec::new();
    v.push(114);
    v.push(116);
    v.push(115);
    v.push(112);
    v.push(95);
    proof {
        assert(v@ =~= spec_rtsp_prefix());
    }
    v
}

/// The watchdog name suffix `_watchdog` as a byte string.
pub fn watchdog_suffix() -> (r: Vec<u8>)
    ensures
        r@ == spec_watchdog_suffix(),
{
    let mut v: Vec<u8> = Vec::new();
    v.push(95);
    v.push(119);
    v.push(97);
    v.push(116);
    v.push(99);
    v.push(104);
    v.push(100);
    v.push(111);
    v.push(103);
    proof {
        assert(v@ =~= spec_watchdog_suffix());
    }
    v
}

/// The stable id of the source in cell `index`.
pub fn source_id(index: usize) -> (r: Vec<u8>)
    ensures
        r@ == spec_source_id(index as nat),
{
    let mut v: Vec<u8> = src_prefix();
    push_decimal(&mut v, index);
    v
}

/// The runtime element name of the RTSP source in cell `index`.
pub fn rtsp_element_name(index: usize) -> (r: Vec<u8>)
    ensures
        r@ == spec_rtsp_element_name(index as nat),
{
    let mut v: Vec<u8> = rtsp_prefix();
    let id: Vec<u8> = source_id(index);
    let mut i: usize = 0;
    while i < id.len()
        invariant
            i <= id@.len(),
            v@ == spec_rtsp_prefix() + id@.subrange(0, i as int),
            id@ == spec_source_id(index as nat),
        decreases id@.len() - i,
    {
        v.push(id[i]);
        proof {
            assert(v@ =~= spec_rtsp_prefix() + id@.subrange(0, i + 1));
        }
        i = i + 1;
    }
    proof {
        assert(id@.subrange(0, id@.len() as int) =~= id@);
    }
    v
}

/// The runtime element name of the watchdog nested in the RTSP source of
/// cell `index`.
pub fn watchdog_element_name(index: usize) -> (r: Vec<u8>)
    ensures
        r@ == spec_watchdog_element_name(index as nat),
{
    let mut v: Vec<u8> = rtsp_element_name(index);
    let suffix: Vec<u8> = watchdog_suffix();
    let mut i: usize = 0;
    while i < suffix.len()
        invariant
            i <= suffix@.len(),
            v@ == spec_rtsp_element_name(index as nat) + suffix@.subrange(0, i as int),
            suffix@ == spec_watchdog_suffix(),
        decreases suffix@.len() - i,
    {
        v.push(suffix[i]);
        proof {
            assert(v@ =~= spec_rtsp_element_name(index as nat) + suffix@.subrange(0, i + 1));
        }
        i = i + 1;
    }
    proof {
        assert(suffix@.subrange(0, suffix@.len() as int) =~= suffix@);
    }
    v
}

/// Every decimal rendering has at least one digit, and renderings of
/// numbers of ten or more have at least two.
pub proof fn lemma_decimal_len(n: nat)
    ensures
        1 <= spec_decimal(n).len(),
        10 <= n ==> 2 <= spec_decimal(n).len(),
    decreases n,
{
    if n >= 10 {
        lemma_decimal_len(n / 10);
    }
}

/// Every byte of a decimal rendering is an ASCII digit.
pub proof fn lemma_decimal_digits(n: nat)
    ensures
        forall|k: int| 0 <= k < spec_decimal(n).len() ==> 48 <= #[trigger] spec_decimal(n)[k] <= 57,
    decreases n,
{
    if n >= 10 {
        lemma_decimal_digits(n / 10);
        vstd::arithmetic::div_mod::lemma_mod_division_less_than_divisor(n as int, 10);
    }
    assert forall|k: int| 0 <= k < spec_decimal(n).len() implies 48 <= #[trigger] spec_decimal(
        n,
    )[k] <= 57 by {
        if n < 10 {
            assert(spec_decimal(n)[k] == (48 + n) as u8);
        } else if k < spec_decimal(n / 10).len() {
            assert(spec_decimal(n)[k] == spec_decimal(n / 10)[k]);
        } else {
            assert(spec_decimal(n)[k] == (48 + n % 10) as u8);
        }
    }
}

/// Decimal rendering is injective: distinct numbers render to distinct
/// digit strings.
pub proof fn lemma_decimal_injective(a: nat, b: nat)
    requires
        spec_decimal(a) == spec_decimal(b),
    ensures
        a == b,
    decreases a,
{
    lemma_decimal_len(a);
    lemma_decimal_len(b);
    if a < 10 && b < 10 {
        assert(spec_decimal(a)[0] == (48 + a) as u8);
        assert(spec_decimal(b)[0] == (48 + b) as u8);
        assert((48 + a) as u8 == 48 + a);
        assert((48 + b) as u8 == 48 + b);
    } else if a < 10 {
        assert(spec_decimal(a).len() == 1);
        assert(spec_decimal(b).len() >= 2);
    } else if b < 10 {
        assert(spec_decimal(a).len() >= 2);
        assert(spec_decimal(b).len() == 1);
    } else {
        let la: int = spec_decimal(a).len() as int;
        vstd::arithmetic::div_mod::lemma_mod_division_less_than_divisor(a as int, 10);
        vstd::arithmetic::div_mod::lemma_mod_division_less_than_divisor(b as int, 10);
        assert(spec_decimal(a).last() == (48 + a % 10) as u8);
        assert(spec_decimal(b).last() == (48 + b % 10) as u8);
        assert((48 + a % 10) as u8 == 48 + a % 10);
        assert((48 + b % 10) as u8 == 48 + b % 10);
        assert(a % 10 == b % 10);
        assert(spec_decimal(a / 10) =~= spec_decimal(a).subrange(0, la - 1));
        assert(spec_decimal(b / 10) =~= spec_decimal(b).subrange(0, la - 1));
        lemma_decimal_injective(a / 10, b / 10);
        vstd::arithmetic::div_mod::lemma_fundamental_div_mod(a as int, 10);
        vstd::arithmetic::div_mod::lemma_fundamental_div_mod(b as int, 10);
    }
}

/// Source ids are unique: distinct cells carry distinct stable ids.
pub proof fn lemma_source_id_injective(a: nat, b: nat)
    requires
        spec_source_id(a) == spec_source_id(b),
    ensures
        a == b,
{
    let p: int = spec_src_prefix().len() as int;
    assert(spec_decimal(a) =~= spec_source_id(a).subrange(
        p,
        spec_source_id(a).len() as int,
    ));
    assert(spec_decimal(b) =~= spec_source_id(b).subrange(
        p,
        spec_source_id(b).len() as int,
    ));
    lemma_decimal_injective(a, b);
}

} // verus!
