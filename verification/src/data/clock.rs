//! How the two readings of a time of day fit together: the 12-hour display
//! of a stored `HH:MM:SS` time, read back by the query language's time
//! normalization, gives the stored time again.
use vstd::prelude::*;
use vstd::string::*;
use crate::text::{
    all_ascii, all_digits, ascii_lower, char_pos, decimal, digit_char, digits_value, first_field,
    i32_or_zero, int_decimal, int_decimal_pad2, is_ws, occurs_at, parse_i32_spec, replace_all,
    second_field, seq_contains, starts_with, trim, trim_end, trim_start,
};
use crate::data::sql::short_time;
use crate::dsl::codegen::normalized_lowered;
use crate::tui::save::lemma_decimal_reads_back;

verus! {

/// The characters of a time before its `am` or `pm`: digits and `:`.
spec fn clock_char(c: char) -> bool {
    ('0' <= c <= '9') || c == ':'
}

/// Text made of digits and `:` only.
spec fn clock_text(s: Seq<char>) -> bool {
    forall|i: int| 0 <= i < s.len() ==> clock_char(#[trigger] s[i])
}

proof fn lemma_decimal_clock(n: nat)
    ensures
        decimal(n).len() > 0,
        clock_text(decimal(n)),
        all_digits(decimal(n)),
        digits_value(decimal(n)) == n,
{
    lemma_decimal_reads_back(n);
}

proof fn lemma_pad2(m: int)
    requires
        0 <= m < 100,
    ensures
        int_decimal_pad2(m).len() > 0,
        clock_text(int_decimal_pad2(m)),
        all_digits(int_decimal_pad2(m)),
        parse_i32_spec(int_decimal_pad2(m)) == Some(m),
{
    let d = int_decimal_pad2(m);
    if m < 10 {
        assert(digit_char(m) as int == 48 + m);
        assert(d.drop_last() =~= seq!['0']);
        assert(seq!['0'].drop_last() =~= Seq::<char>::empty());
        assert(digits_value(seq!['0']) == digits_value(seq!['0'].drop_last()) * 10 + (('0' as int - 48) as nat));
        assert(digits_value(d) == digits_value(d.drop_last()) * 10 + ((d.last() as int - 48) as nat));
    } else {
        lemma_decimal_clock(m as nat);
    }
    assert('0' <= d[0] <= '9');
}

proof fn lemma_decimal_parses(n: nat)
    requires
        n <= i32::MAX,
    ensures
        parse_i32_spec(decimal(n)) == Some(n as int),
{
    lemma_decimal_clock(n);
    assert('0' <= decimal(n)[0] <= '9');
}

/// The first `:` of `a + ":" + b` is after `a` when `a` holds none.
proof fn lemma_char_pos_after(a: Seq<char>, b: Seq<char>)
    requires
        forall|i: int| 0 <= i < a.len() ==> a[i] != ':',
    ensures
        char_pos(a + seq![':'] + b, ':') == Some(a.len() as int),
    decreases a.len(),
{
    let s = a + seq![':'] + b;
    if a.len() == 0 {
        assert(s[0] == ':');
    } else {
        assert(s[0] == a[0]);
        assert(s.drop_first() =~= a.drop_first() + seq![':'] + b);
        lemma_char_pos_after(a.drop_first(), b);
    }
}

proof fn lemma_char_pos_none(a: Seq<char>)
    requires
        forall|i: int| 0 <= i < a.len() ==> a[i] != ':',
    ensures
        char_pos(a, ':') is None,
    decreases a.len(),
{
    if a.len() > 0 {
        assert(a[0] != ':');
        lemma_char_pos_none(a.drop_first());
    }
}

/// The fields around the first `:` of `a + ":" + b`.
proof fn lemma_fields(a: Seq<char>, b: Seq<char>)
    requires
        forall|i: int| 0 <= i < a.len() ==> a[i] != ':',
    ensures
        first_field(a + seq![':'] + b) == a,
        second_field(a + seq![':'] + b) == Some(first_field(b)),
{
    lemma_char_pos_after(a, b);
    let s = a + seq![':'] + b;
    assert(s.subrange(0, a.len() as int) =~= a);
    assert(s.subrange(a.len() as int + 1, s.len() as int) =~= b);
}

/// Text without the first character of `pat` is left as it is.
proof fn lemma_replace_absent(s: Seq<char>, pat: Seq<char>, rep: Seq<char>)
    requires
        pat.len() > 0,
        forall|i: int| 0 <= i < s.len() ==> s[i] != pat[0],
    ensures
        replace_all(s, pat, rep) == s,
    decreases s.len(),
{
    if s.len() > 0 {
        assert(!starts_with(s, pat)) by {
            if starts_with(s, pat) {
                assert(s.subrange(0, pat.len() as int)[0] == s[0]);
            }
        }
        lemma_replace_absent(s.drop_first(), pat, rep);
        assert(seq![s[0]] + s.drop_first() =~= s);
    }
}

/// `core + pat`, with nothing of `pat`'s first character in `core`: the
/// final `pat` is replaced.
proof fn lemma_replace_suffix(core: Seq<char>, pat: Seq<char>, rep: Seq<char>)
    requires
        pat.len() > 0,
        forall|i: int| 0 <= i < core.len() ==> core[i] != pat[0],
    ensures
        replace_all(core + pat, pat, rep) == core + rep,
    decreases core.len(),
{
    let s = core + pat;
    if core.len() == 0 {
        assert(s =~= pat);
        assert(starts_with(s, pat)) by {
            assert(s.subrange(0, pat.len() as int) =~= pat);
        }
        assert(s.subrange(pat.len() as int, s.len() as int) =~= Seq::<char>::empty());
        assert(replace_all(Seq::<char>::empty(), pat, rep) == Seq::<char>::empty());
        assert(replace_all(s, pat, rep) == rep + replace_all(s.subrange(pat.len() as int, s.len() as int), pat, rep));
        assert(rep + Seq::<char>::empty() =~= core + rep);
    } else {
        assert(!starts_with(s, pat)) by {
            if starts_with(s, pat) {
                assert(s.subrange(0, pat.len() as int)[0] == s[0]);
            }
        }
        assert(s.drop_first() =~= core.drop_first() + pat);
        assert(replace_all(s, pat, rep) == seq![s[0]] + replace_all(s.drop_first(), pat, rep));
        lemma_replace_suffix(core.drop_first(), pat, rep);
        assert(seq![s[0]] + (core.drop_first() + rep) =~= core + rep);
    }
}

/// Text that begins and ends with a digit is its own trim.
proof fn lemma_trim_digits(s: Seq<char>)
    requires
        s.len() > 0,
        '0' <= s[0] <= '9',
        '0' <= s.last() <= '9',
    ensures
        trim(s) == s,
{
    assert(!is_ws(s[0]));
    assert(trim_start(s) == s);
    assert(!is_ws(s.last()));
    assert(trim_end(s) == s);
}

/// `core + word` holds `other` only where `core` does, and holds `word`.
proof fn lemma_suffix_words(core: Seq<char>, word: Seq<char>, other: Seq<char>)
    requires
        clock_text(core),
        word.len() == 2,
        other.len() == 2,
        word[0] == 'a' || word[0] == 'p',
        other[0] == 'a' || other[0] == 'p',
        word[0] != other[0],
        word[1] == 'm',
    ensures
        seq_contains(core + word, word),
        !seq_contains(core + word, other),
{
    let s = core + word;
    assert(occurs_at(s, word, core.len() as int)) by {
        assert(s.subrange(core.len() as int, core.len() as int + 2) =~= word);
    }
    assert forall|i: int| !occurs_at(s, other, i) by {
        if occurs_at(s, other, i) {
            assert(s.subrange(i, i + 2)[0] == s[i]);
            if i < core.len() {
                assert(s[i] == core[i]);
                assert(clock_char(core[i]));
            } else if i == core.len() {
                assert(s[i] == word[0]);
            } else {
                assert(s[i] == word[1]);
            }
        }
    }
}

/// The display of hour `hour` and minute `m` before its `am` or `pm`.
spec fn display_core(hour: int, m: int) -> Seq<char> {
    decimal(hour as nat) + ":"@ + int_decimal_pad2(m)
}

proof fn lemma_core_clock(hour: int, m: int)
    requires
        1 <= hour <= 12,
        0 <= m < 60,
    ensures
        clock_text(display_core(hour, m)),
        display_core(hour, m).len() > 0,
        '0' <= display_core(hour, m)[0] <= '9',
        '0' <= display_core(hour, m).last() <= '9',
{
    reveal_strlit(":");
    let dh = decimal(hour as nat);
    let mm = int_decimal_pad2(m);
    lemma_pad2(m);
    lemma_decimal_clock(hour as nat);
    let core = display_core(hour, m);
    assert(core =~= dh + seq![':'] + mm);
    assert forall|i: int| 0 <= i < core.len() implies clock_char(#[trigger] core[i]) by {
        if i < dh.len() {
            assert(core[i] == dh[i]);
        } else if i == dh.len() {
        } else {
            assert(core[i] == mm[i - dh.len() - 1]);
        }
    }
    assert(core.last() == mm.last());
    assert('0' <= mm.last() <= '9');
    assert(core[0] == dh[0]);
    assert('0' <= dh[0] <= '9');
}

/// Taking `word` and then `other` out of `core + word` leaves `core`.
proof fn lemma_out_word_first(core: Seq<char>, word: Seq<char>, other: Seq<char>)
    requires
        clock_text(core),
        word.len() == 2,
        other.len() == 2,
        word[0] == 'a' || word[0] == 'p',
        other[0] == 'a' || other[0] == 'p',
    ensures
        replace_all(replace_all(core + word, word, Seq::empty()), other, Seq::empty()) == core,
{
    lemma_replace_suffix(core, word, Seq::empty());
    assert(core + Seq::<char>::empty() =~= core);
    assert forall|i: int| 0 <= i < core.len() implies core[i] != other[0] by {
        assert(clock_char(core[i]));
    }
    lemma_replace_absent(core, other, Seq::empty());
}

/// Taking `other` and then `word` out of `core + word` leaves `core`.
proof fn lemma_out_other_first(core: Seq<char>, word: Seq<char>, other: Seq<char>)
    requires
        clock_text(core),
        word.len() == 2,
        other.len() == 2,
        word[0] == 'a' || word[0] == 'p',
        other[0] == 'a' || other[0] == 'p',
        word[0] != other[0],
        word[1] == 'm',
    ensures
        replace_all(replace_all(core + word, other, Seq::empty()), word, Seq::empty()) == core,
{
    let shown = core + word;
    assert forall|i: int| 0 <= i < shown.len() implies shown[i] != other[0] by {
        if i < core.len() {
            assert(shown[i] == core[i]);
            assert(clock_char(core[i]));
        } else {
            assert(shown[i] == word[i - core.len()]);
        }
    }
    lemma_replace_absent(shown, other, Seq::empty());
    lemma_replace_suffix(core, word, Seq::empty());
    assert(core + Seq::<char>::empty() =~= core);
}

/// Taking `am` and `pm` out of the display leaves its core, and tells
/// which half of the day it was.
proof fn lemma_halves(hour: int, m: int, pm_half: bool)
    requires
        1 <= hour <= 12,
        0 <= m < 60,
    ensures
        ({
            let core = display_core(hour, m);
            let shown = core + (if pm_half { "pm"@ } else { "am"@ });
            &&& seq_contains(shown, "pm"@) == pm_half
            &&& seq_contains(shown, "am"@) == !pm_half
            &&& replace_all(replace_all(shown, "am"@, Seq::empty()), "pm"@, Seq::empty()) == core
        }),
{
    reveal_strlit("am");
    reveal_strlit("pm");
    lemma_core_clock(hour, m);
    let core = display_core(hour, m);
    if pm_half {
        lemma_suffix_words(core, "pm"@, "am"@);
        lemma_out_other_first(core, "pm"@, "am"@);
    } else {
        lemma_suffix_words(core, "am"@, "pm"@);
        lemma_out_word_first(core, "am"@, "pm"@);
    }
}

/// The core of the display reads as its hour and minute.
proof fn lemma_core_reads(hour: int, m: int)
    requires
        1 <= hour <= 12,
        0 <= m < 60,
    ensures
        trim(display_core(hour, m)) == display_core(hour, m),
        i32_or_zero(trim(first_field(display_core(hour, m)))) == hour,
        second_field(display_core(hour, m)) == Some(int_decimal_pad2(m)),
        i32_or_zero(trim(int_decimal_pad2(m))) == m,
{
    reveal_strlit(":");
    let dh = decimal(hour as nat);
    let mm = int_decimal_pad2(m);
    lemma_pad2(m);
    lemma_decimal_clock(hour as nat);
    lemma_decimal_parses(hour as nat);
    lemma_core_clock(hour, m);
    let core = display_core(hour, m);
    assert(core =~= dh + seq![':'] + mm);
    lemma_trim_digits(core);
    assert forall|i: int| 0 <= i < dh.len() implies dh[i] != ':' by {
        assert('0' <= dh[i] <= '9');
    }
    lemma_fields(dh, mm);
    assert forall|i: int| 0 <= i < mm.len() implies mm[i] != ':' by {
        assert('0' <= mm[i] <= '9');
    }
    lemma_char_pos_none(mm);
    assert('0' <= dh.last() <= '9');
    assert('0' <= dh[0] <= '9');
    lemma_trim_digits(dh);
    assert('0' <= mm[0] <= '9');
    assert('0' <= mm.last() <= '9');
    lemma_trim_digits(mm);
}

/// The display `h:MM` followed by `am` or `pm` reads back as the hour of the
/// day and the minute.
proof fn lemma_read_back(hour: int, m: int, pm_half: bool)
    requires
        1 <= hour <= 12,
        0 <= m < 60,
    ensures
        ({
            let period = if pm_half { "pm"@ } else { "am"@ };
            let h24 = if pm_half && hour != 12 { hour + 12 } else if !pm_half && hour == 12 { 0 } else { hour };
            &&& clock_text(display_core(hour, m))
            &&& normalized_lowered(display_core(hour, m) + period) == Some(
                int_decimal_pad2(h24) + ":"@ + int_decimal_pad2(m) + ":00"@,
            )
        }),
{
    lemma_core_clock(hour, m);
    lemma_halves(hour, m, pm_half);
    lemma_core_reads(hour, m);
    assert(first_field(int_decimal_pad2(m)) == int_decimal_pad2(m)) by {
        lemma_pad2(m);
        assert forall|i: int| 0 <= i < int_decimal_pad2(m).len() implies int_decimal_pad2(m)[i] != ':' by {
            assert('0' <= int_decimal_pad2(m)[i] <= '9');
        }
        lemma_char_pos_none(int_decimal_pad2(m));
    }
}

/// The 12-hour display of `HH:MM:SS` is `h:MM` followed by its half of the
/// day.
proof fn lemma_shown(h: int, m: int)
    requires
        0 <= h < 24,
        0 <= m < 60,
    ensures
        ({
            let stored = int_decimal_pad2(h) + ":"@ + int_decimal_pad2(m) + ":00"@;
            let hour = if h == 0 { 12 } else if h <= 12 { h } else { h - 12 };
            let period = if h < 12 { "am"@ } else { "pm"@ };
            short_time(stored) == decimal(hour as nat) + ":"@ + int_decimal_pad2(m) + period
        }),
{
    reveal_strlit(":");
    reveal_strlit(":00");
    let hh = int_decimal_pad2(h);
    let mm = int_decimal_pad2(m);
    lemma_pad2(h);
    lemma_pad2(m);
    let stored = hh + ":"@ + mm + ":00"@;
    assert(stored =~= hh + seq![':'] + (mm + seq![':', '0', '0']));
    assert forall|i: int| 0 <= i < hh.len() implies hh[i] != ':' by {
        assert('0' <= hh[i] <= '9');
    }
    assert forall|i: int| 0 <= i < mm.len() implies mm[i] != ':' by {
        assert('0' <= mm[i] <= '9');
    }
    lemma_fields(hh, mm + seq![':', '0', '0']);
    assert(mm + seq![':', '0', '0'] =~= mm + seq![':'] + seq!['0', '0']);
    lemma_fields(mm, seq!['0', '0']);
    assert(first_field(stored) == hh);
    assert(second_field(stored) == Some(mm));
    let hour = if h == 0 { 12 } else if h <= 12 { h } else { h - 12 };
    assert(int_decimal(hour) == decimal(hour as nat));
}

/// A display is ASCII, and reading it in lower case changes nothing.
proof fn lemma_display_ascii(core: Seq<char>, period: Seq<char>)
    requires
        clock_text(core),
        period.len() == 2,
        period[0] == 'a' || period[0] == 'p',
        period[1] == 'm',
    ensures
        all_ascii(core + period),
        (core + period).map_values(|c: char| ascii_lower(c)) == core + period,
{
    let shown = core + period;
    assert forall|i: int| 0 <= i < shown.len() implies (shown[i] as u32) < 128 by {
        if i < core.len() {
            assert(shown[i] == core[i]);
            assert(clock_char(core[i]));
        } else {
            assert(shown[i] == period[i - core.len()]);
        }
    }
    assert forall|i: int| 0 <= i < shown.len() implies ascii_lower(#[trigger] shown[i]) == shown[i] by {
        if i < core.len() {
            assert(shown[i] == core[i]);
            assert(clock_char(core[i]));
        } else {
            assert(shown[i] == period[i - core.len()]);
        }
    }
    assert(shown.map_values(|c: char| ascii_lower(c)) =~= shown);
}

/// A stored time of day shown on the 12-hour clock and read back by the
/// query language's time normalization (on ASCII text, where reading in
/// lower case changes no character of the display) is the stored time
/// again: `HH:MM:00` becomes `h:MMam`/`h:MMpm` and back.
pub proof fn lemma_time_display_round_trip(h: int, m: int)
    requires
        0 <= h < 24,
        0 <= m < 60,
    ensures
        ({
            let stored = int_decimal_pad2(h) + ":"@ + int_decimal_pad2(m) + ":00"@;
            let shown = short_time(stored);
            &&& all_ascii(shown)
            &&& shown.map_values(|c: char| ascii_lower(c)) == shown
            &&& normalized_lowered(shown) == Some(stored)
        }),
{
    reveal_strlit("am");
    reveal_strlit("pm");
    let hour = if h == 0 { 12 } else if h <= 12 { h } else { h - 12 };
    let pm_half = h >= 12;
    let period = if pm_half { "pm"@ } else { "am"@ };
    lemma_shown(h, m);
    lemma_read_back(hour, m, pm_half);
    lemma_display_ascii(display_core(hour, m), period);
}

} // verus!
