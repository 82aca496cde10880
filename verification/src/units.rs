//! Sizes, durations and reclaim figures in words.

use vstd::prelude::*;

use crate::reclaim::{GroupLinks, LinkCount, ReclaimEstimate, ReclaimState};
use crate::text::{
    push_two_digits, push_u64,
};

verus! {

/// `n / d` rounded to the nearest integer, a half going to the even neighbour.
pub open spec fn round_half_even(n: nat, d: nat) -> nat {
    let q = n / d;
    let r = n % d;
    if 2 * r < d {
        q
    } else if 2 * r > d {
        q + 1
    } else if q % 2 == 0 {
        q
    } else {
        q + 1
    }
}

/// The spacing of the doubles around `b`: the smallest power of two, from `ulp` on, that leaves
/// `b` a significand of 53 bits.
pub open spec fn double_spacing(b: nat, ulp: nat) -> nat
    decreases 4096 - ulp,
{
    if b < ulp * 0x20_0000_0000_0000 || ulp >= 2048 || ulp == 0 {
        ulp
    } else {
        double_spacing(b, 2 * ulp)
    }
}

/// The double nearest to an integer, as an integer: what the size is worth once it is held in
/// floating point.
pub open spec fn nearest_double(b: nat) -> nat {
    let ulp = double_spacing(b, 1);
    round_half_even(b, ulp) * ulp
}

/// How many times the size can be divided by 1024 before it drops below 1024, four at most.
pub open spec fn unit_index(b: nat) -> int {
    if b < 0x400 {
        0
    } else if b < 0x10_0000 {
        1
    } else if b < 0x4000_0000 {
        2
    } else if b < 0x100_0000_0000 {
        3
    } else {
        4
    }
}

/// Bytes in one unit of the given index.
pub open spec fn unit_bytes(index: int) -> nat {
    if index == 0 {
        1
    } else if index == 1 {
        0x400
    } else if index == 2 {
        0x10_0000
    } else if index == 3 {
        0x4000_0000
    } else {
        0x100_0000_0000
    }
}

/// Name of the unit of the given index.
pub open spec fn unit_name(index: int) -> Seq<char> {
    if index == 0 {
        "B"@
    } else if index == 1 {
        "KiB"@
    } else if index == 2 {
        "MiB"@
    } else if index == 3 {
        "GiB"@
    } else {
        "TiB"@
    }
}

/// Tenths of a unit as a number with one decimal.
pub open spec fn one_decimal(tenths: nat) -> Seq<char> {
    crate::text::decimal(tenths / 10) + seq!['.'] + crate::text::decimal(tenths % 10)
}

/// The number of a human-readable size: whole bytes below 1024, otherwise one decimal of the
/// unit.
pub open spec fn size_number(b: nat) -> Seq<char> {
    let index = unit_index(b);
    if index == 0 {
        crate::text::decimal(b)
    } else {
        one_decimal(round_half_even(10 * nearest_double(b), unit_bytes(index)))
    }
}

/// A human-readable size: the number, a space and the unit.
pub open spec fn size_text(b: nat) -> Seq<char> {
    size_number(b) + " "@ + unit_name(unit_index(b))
}

proof fn lemma_short_decimal(n: nat)
    requires
        n <= 9999,
    ensures
        crate::text::decimal(n).len() <= 4,
        n < 10 ==> crate::text::decimal(n).len() == 1,
{
    reveal_with_fuel(crate::text::decimal, 4);
}

/// Below 2^53 bytes the number of a size has at most six characters.
pub proof fn lemma_size_number_is_short(b: nat)
    requires
        b < 0x20_0000_0000_0000,
    ensures
        size_number(b).len() <= 6,
{
    let index = unit_index(b);
    if index == 0 {
        lemma_short_decimal(b);
    } else {
        let unit = unit_bytes(index);
        assert(nearest_double(b) == b) by {
            assert(double_spacing(b, 1) == 1);
            assert(round_half_even(b, 1) == b) by (nonlinear_arith);
        }
        let tenths = round_half_even(10 * b, unit);
        assert(tenths <= 81920) by {
            let q = (10 * b) / unit;
            vstd::arithmetic::div_mod::lemma_fundamental_div_mod((10 * b) as int, unit as int);
            assert(10 * b < 81920 * unit);
            assert(q < 81920) by (nonlinear_arith)
                requires
                    10 * b == unit * q + (10 * b) % unit,
                    10 * b < 81920 * unit,
                    0 < unit,
            ;
        }
        lemma_short_decimal(tenths / 10);
        lemma_short_decimal(tenths % 10);
    }
}

fn half_even(n: u128, d: u128) -> (r: u128)
    requires
        0 < d,
        d <= 0x100_0000_0000,
        n <= 0xff_ffff_ffff_ffff_ffff,
    ensures
        r == round_half_even(n as nat, d as nat),
        r <= n + 1,
{
    let q: u128 = n / d;
    let r: u128 = n % d;
    assert(q <= n) by (nonlinear_arith)
        requires
            q == n / d,
            d > 0,
    ;
    assert(r < d) by (nonlinear_arith)
        requires
            r == n % d,
            d > 0,
    ;
    if 2 * r < d {
        q
    } else if 2 * r > d {
        q + 1
    } else if q % 2 == 0 {
        q
    } else {
        q + 1
    }
}

fn to_double(b: u64) -> (r: u128)
    ensures
        r == nearest_double(b as nat),
        r <= 0x1_0000_0000_0000_1000,
{
    let wide: u128 = b as u128;
    let mut ulp: u128 = 1;
    while !(wide < ulp * 0x20_0000_0000_0000 || ulp >= 2048)
        invariant
            0 < ulp < 4096,
            wide == b,
            double_spacing(b as nat, ulp as nat) == double_spacing(b as nat, 1),
        decreases 4096 - ulp,
    {
        ulp = 2 * ulp;
    }
    let q: u128 = half_even(wide, ulp);
    proof {
        let n = wide as int;
        let d = ulp as int;
        let quotient = n / d;
        let rest = n % d;
        assert(d * quotient + rest == n && 0 <= rest < d) by (nonlinear_arith)
            requires
                quotient == n / d,
                rest == n % d,
                d > 0,
        ;
        assert(q <= quotient + 1);
        assert(q * d <= n + d) by (nonlinear_arith)
            requires
                q <= quotient + 1,
                d * quotient <= n,
                d > 0,
        ;
        assert(q * ulp <= 0x1_0000_0000_0000_1000);
    }
    q * ulp
}

/// Size split apart — number and unit, for column alignment
/// (digits under digits): 1536 -> ("1.5", "KiB"), 512 -> ("512", "B").
pub fn human_bytes_parts(bytes: u64) -> (r: (String, &'static str))
    ensures
        r.0@ == size_number(bytes as nat),
        r.1@ == unit_name(unit_index(bytes as nat)),
{
    let mut out = String::new();
    if bytes < 0x400 {
        push_u64(&mut out, bytes);
        assert(out@ =~= size_number(bytes as nat));
        return (out, "B");
    }
    let (unit, name): (u128, &'static str) = if bytes < 0x10_0000 {
        (0x400, "KiB")
    } else if bytes < 0x4000_0000 {
        (0x10_0000, "MiB")
    } else if bytes < 0x100_0000_0000 {
        (0x4000_0000, "GiB")
    } else {
        (0x100_0000_0000, "TiB")
    };
    let value: u128 = to_double(bytes);
    let tenths: u128 = half_even(10 * value, unit);
    proof {
        lemma_tenths_fit(10 * value as nat, unit as nat);
    }
    push_u64(&mut out, (tenths / 10) as u64);
    out.push('.');
    push_u64(&mut out, (tenths % 10) as u64);
    assert(out@ =~= one_decimal(tenths as nat));
    (out, name)
}

proof fn lemma_tenths_fit(n: nat, d: nat)
    requires
        d >= 0x400,
        n <= 10 * 0x1_0000_0000_0000_1000,
    ensures
        round_half_even(n, d) / 10 <= 0xffff_ffff_ffff_ffff,
{
    let q = n / d;
    assert(q * 0x400 <= n) by (nonlinear_arith)
        requires
            q == n / d,
            d >= 0x400,
    ;
}

/// Human-readable size: 1536 -> "1.5 KiB".
pub fn human_bytes(bytes: u64) -> (r: String)
    ensures
        r@ == size_text(bytes as nat),
{
    let (mut value, unit) = human_bytes_parts(bytes);
    value.push_str(" ");
    value.push_str(unit);
    value
}

/// The words of a reclaim figure.
pub open spec fn reclaim_words(e: ReclaimEstimate) -> Seq<char> {
    match e.potential {
        None => "rescan required"@,
        Some(ceiling) => if ceiling == e.guaranteed {
            "guaranteed after quarantine purge: "@ + size_text(e.guaranteed as nat)
        } else {
            "guaranteed after quarantine purge: "@ + size_text(e.guaranteed as nat) + " · up to "@
                + size_text(ceiling as nat) + " after quarantine purge"@
        },
    }
}

/// The one place a reclaim figure becomes words.
///
/// Every claim is post-purge: deleting a duplicate moves it into the quarantine inside the same
/// dataset and releases nothing until the quarantine is purged. An upper bound says what is
/// guaranteed and then, separately, how far the number could go. A result whose link counts were
/// never recorded offers no number at all.
pub fn reclaim_phrase(estimate: ReclaimEstimate) -> (r: String)
    ensures
        r@ == reclaim_words(estimate),
{
    match estimate.potential_bytes() {
        None => "rescan required".to_string(),
        Some(ceiling) => {
            let mut out = "guaranteed after quarantine purge: ".to_string();
            out.push_str(human_bytes(estimate.guaranteed_bytes()).as_str());
            if ceiling != estimate.guaranteed_bytes() {
                out.push_str(" · up to ");
                out.push_str(human_bytes(ceiling).as_str());
                out.push_str(" after quarantine purge");
            }
            out
        },
    }
}

/// The words of a reclaim figure in a list row.
pub open spec fn reclaim_cell_words(e: ReclaimEstimate) -> Seq<char> {
    match e.potential {
        None => "rescan required"@,
        Some(ceiling) => if ceiling == e.guaranteed {
            "guaranteed after quarantine purge: "@ + size_text(e.guaranteed as nat)
        } else {
            "up to "@ + size_text(ceiling as nat) + " after quarantine purge"@
        },
    }
}

/// The same figure for a list row: one clause instead of two, and never one word shorter than
/// that. The qualifier is what makes the number true, so it is not the part a narrow column may
/// drop.
pub fn reclaim_cell(estimate: ReclaimEstimate) -> (r: String)
    ensures
        r@ == reclaim_cell_words(estimate),
{
    match estimate.potential_bytes() {
        None => "rescan required".to_string(),
        Some(ceiling) => if ceiling == estimate.guaranteed_bytes() {
            let mut out = "guaranteed after quarantine purge: ".to_string();
            out.push_str(human_bytes(estimate.guaranteed_bytes()).as_str());
            out
        } else {
            let mut out = "up to ".to_string();
            out.push_str(human_bytes(ceiling).as_str());
            out.push_str(" after quarantine purge");
            out
        },
    }
}

/// The words of an allocation count.
pub open spec fn objects_words(object_count: nat, reclaim: ReclaimEstimate) -> Seq<char> {
    if object_count == 0 && reclaim.potential is None {
        "? objects"@
    } else {
        crate::text::decimal(object_count) + " objects"@
    }
}

/// The one place a group's allocation count becomes words. A zero on a row nothing is established
/// about is a count that was never recorded, and the row says so instead of printing a zero.
pub fn objects_cell(object_count: u64, reclaim: ReclaimEstimate) -> (r: String)
    ensures
        r@ == objects_words(object_count as nat, reclaim),
{
    if object_count == 0 && reclaim.state() == ReclaimState::Unknown {
        "? objects".to_string()
    } else {
        let mut out = String::new();
        push_u64(&mut out, object_count);
        assert(out@ =~= crate::text::decimal(object_count as nat));
        out.push_str(" objects");
        out
    }
}

/// The words of the link evidence.
pub open spec fn links_words(links: GroupLinks) -> Seq<char> {
    "links seen "@ + crate::text::decimal(links.observed as nat) + "/"@ + (match links.total {
        LinkCount::Known(total) => crate::text::decimal(total as nat),
        LinkCount::Unknown => "unrecorded"@,
    })
}

/// How many of a group's allocations' links the scan saw — the sentence that explains why an
/// upper bound is an upper bound.
pub fn links_phrase(links: GroupLinks) -> (r: String)
    ensures
        r@ == links_words(links),
{
    let mut out = "links seen ".to_string();
    push_u64(&mut out, links.observed);
    out.push_str("/");
    match links.total {
        LinkCount::Known(total) => {
            push_u64(&mut out, total);
        },
        LinkCount::Unknown => {
            out.push_str("unrecorded");
        },
    }
    out
}

/// Seconds once they are held in floating point and cut to whole ones again.
pub open spec fn held_seconds(secs: u64) -> nat {
    if nearest_double(secs as nat) <= u64::MAX {
        nearest_double(secs as nat)
    } else {
        u64::MAX as nat
    }
}

/// Seconds once they are held in floating point and cut to whole ones again.
pub fn seconds_held(secs: u64) -> (r: u64)
    ensures
        r == held_seconds(secs),
{
    let held: u128 = to_double(secs);
    if held <= u64::MAX as u128 {
        held as u64
    } else {
        u64::MAX
    }
}

/// A duration in its two largest units.
pub open spec fn duration_words(total: nat) -> Seq<char> {
    let hours = total / 3600;
    let minutes = (total % 3600) / 60;
    let secs = total % 60;
    if hours > 0 {
        crate::text::decimal(hours) + "h"@ + crate::text::two_digits(minutes) + "m"@
    } else if minutes > 0 {
        crate::text::decimal(minutes) + "m"@ + crate::text::two_digits(secs) + "s"@
    } else {
        crate::text::decimal(secs) + "s"@
    }
}

/// Human-readable duration of whole seconds: 134 -> "2m14s", 3725 -> "1h02m", 9 -> "9s".
pub fn format_duration(total: u64) -> (r: String)
    ensures
        r@ == duration_words(total as nat),
{
    let hours: u64 = total / 3600;
    let minutes: u64 = (total % 3600) / 60;
    let secs: u64 = total % 60;
    let mut out = String::new();
    if hours > 0 {
        push_u64(&mut out, hours);
        assert(out@ =~= crate::text::decimal(hours as nat));
        out.push_str("h");
        push_two_digits(&mut out, minutes);
        out.push_str("m");
    } else if minutes > 0 {
        push_u64(&mut out, minutes);
        assert(out@ =~= crate::text::decimal(minutes as nat));
        out.push_str("m");
        push_two_digits(&mut out, secs);
        out.push_str("s");
    } else {
        push_u64(&mut out, secs);
        assert(out@ =~= crate::text::decimal(secs as nat));
        out.push_str("s");
    }
    out
}

/// A figure that is not a bare guarantee never appears without the words that it lies behind a
/// purge: the compact form of a ceiling ends in the qualifier, and the full form says what is
/// guaranteed before it says how far the number could go.
pub proof fn law_a_ceiling_carries_its_qualifier(e: ReclaimEstimate)
    requires
        e.spec_state() == ReclaimState::UpperBound,
    ensures
        reclaim_cell_words(e) == "up to "@ + size_text(e.potential->0 as nat)
            + " after quarantine purge"@,
        reclaim_words(e) == "guaranteed after quarantine purge: "@ + size_text(e.guaranteed as nat)
            + " · "@ + reclaim_cell_words(e),
{
    reveal_strlit(" · up to ");
    reveal_strlit(" · ");
    reveal_strlit("up to ");
    assert(" · up to "@ =~= " · "@ + "up to "@);
    assert(reclaim_words(e) =~= "guaranteed after quarantine purge: "@ + size_text(
        e.guaranteed as nat,
    ) + " · "@ + reclaim_cell_words(e));
}

/// Without recorded link counts no number is printed, and without a recorded allocation count no
/// zero is.
pub proof fn law_the_unknown_offers_no_number(e: ReclaimEstimate)
    requires
        e.spec_state() == ReclaimState::Unknown,
    ensures
        reclaim_words(e) == "rescan required"@,
        reclaim_cell_words(e) == "rescan required"@,
        objects_words(0, e) == "? objects"@,
{
}

} // verus!
