//! A validated wall-clock hour/minute pair used as a schedule boundary.
//!
//! Accepted textual forms, specified by `spec_time_of`:
//! - 24-hour: `"H:MM"`, `"HH:MM"` or a bare hour, hour 0-23, minute 0-59;
//! - 12-hour: the same body followed by a case-insensitive `AM`/`PM`
//!   marker, optionally separated by spaces; hour 1-12, `12 AM` maps to
//!   hour 0 and `12 PM` to hour 12.
//!
//! A component is a non-empty run of decimal digits; a missing minute
//! component means minute 0. The bare-hour form has to be admitted: a
//! 12-hour time may be written without minutes, as in "7 PM", and a
//! text like "13 PM" is rejected for its hour range, not for its shape
//! — so the body grammar, shared by both forms, allows a lone hour
//! numeral. An out-of-range value is never constructed: construction
//! fails instead.

use crate::error::Error;
use vstd::prelude::*;

verus! {

/// A wall-clock time. Valid values satisfy `wf`; every constructor
/// establishes it and no operation breaks it.
#[derive(Debug, Clone, Copy, PartialEq, Eq, Structural)]
pub struct Time {
    pub hour: u8,
    pub minute: u8,
}

/// `c` is a decimal digit (codepoints 48 through 57).
pub open spec fn spec_is_digit(c: char) -> bool {
    48 <= c as int && c as int <= 57
}

/// The numeric value of a digit character.
pub open spec fn spec_digit_val(c: char) -> nat {
    (c as int - 48) as nat
}

/// Every character of `s` is a decimal digit.
pub open spec fn spec_all_digits(s: Seq<char>) -> bool {
    forall|j: int| 0 <= j < s.len() ==> spec_is_digit(#[trigger] s[j])
}

/// `s` is a non-empty run of decimal digits.
pub open spec fn spec_digits(s: Seq<char>) -> bool {
    s.len() > 0 && spec_all_digits(s)
}

/// The value of `s` read as a decimal numeral.
pub open spec fn spec_dec_value(s: Seq<char>) -> nat
    decreases s.len(),
{
    if s.len() == 0 {
        0
    } else {
        spec_dec_value(s.drop_last()) * 10 + spec_digit_val(s.last())
    }
}

/// `v` capped at 1000; large numerals are all treated alike, since every
/// in-range field is far below the cap.
pub open spec fn spec_cap(v: nat) -> nat {
    if v <= 1000 {
        v
    } else {
        1000
    }
}

/// `s` splits into an hour numeral `h` and a minute numeral `m`: either
/// `s` is one numeral (the minute defaults to 0), or `s` is two numerals
/// joined by a single colon.
pub open spec fn spec_body(s: Seq<char>, h: nat, m: nat) -> bool {
    ||| (spec_digits(s) && h == spec_dec_value(s) && m == 0)
    ||| (exists|ci: int|
        #![trigger s.subrange(0, ci)]
        0 <= ci < s.len() && s[ci] == ':' && spec_digits(s.subrange(0, ci))
            && spec_digits(s.subrange(ci + 1, s.len() as int)) && h == spec_dec_value(
            s.subrange(0, ci),
        ) && m == spec_dec_value(s.subrange(ci + 1, s.len() as int)))
}

/// `s` with trailing spaces removed.
pub open spec fn spec_trim_end(s: Seq<char>) -> Seq<char>
    decreases s.len(),
{
    if s.len() > 0 && s.last() == ' ' {
        spec_trim_end(s.drop_last())
    } else {
        s
    }
}

/// `s` ends with a case-insensitive `AM` marker.
pub open spec fn spec_has_am(s: Seq<char>) -> bool {
    s.len() >= 2 && (s[s.len() - 2] == 'a' || s[s.len() - 2] == 'A') && (s[s.len() - 1] == 'm'
        || s[s.len() - 1] == 'M')
}

/// `s` ends with a case-insensitive `PM` marker.
pub open spec fn spec_has_pm(s: Seq<char>) -> bool {
    s.len() >= 2 && (s[s.len() - 2] == 'p' || s[s.len() - 2] == 'P') && (s[s.len() - 1] == 'm'
        || s[s.len() - 1] == 'M')
}

/// The 24-hour hour a 12-hour hour denotes: `12 AM` is hour 0, `12 PM`
/// is hour 12, and any other `PM` hour gains 12.
pub open spec fn spec_hour12_to24(h: nat, pm: bool) -> nat {
    if pm {
        if h == 12 {
            12
        } else {
            h + 12
        }
    } else {
        if h == 12 {
            0
        } else {
            h
        }
    }
}

/// The text `s` denotes the wall-clock time `hour:minute`. This is the
/// whole grammar: a marker selects the 12-hour reading, otherwise the
/// body is read directly as a 24-hour time.
pub open spec fn spec_time_of(s: Seq<char>, hour: nat, minute: nat) -> bool {
    if spec_has_am(s) || spec_has_pm(s) {
        exists|h: nat, m: nat|
            #![trigger spec_body(spec_trim_end(s.take(s.len() - 2)), h, m)]
            spec_body(spec_trim_end(s.take(s.len() - 2)), h, m) && 1 <= h <= 12 && m <= 59 && hour
                == spec_hour12_to24(h, spec_has_pm(s)) && minute == m
    } else {
        spec_body(s, hour, minute) && hour <= 23 && minute <= 59
    }
}

/// The text `s` denotes some time.
pub open spec fn spec_time_text_valid(s: Seq<char>) -> bool {
    exists|hour: nat, minute: nat| spec_time_of(s, hour, minute)
}

/// The message reported for text that denotes no time.
pub open spec fn spec_parse_error_message(s: Seq<char>) -> Seq<char> {
    "Invalid time: "@ + s
}

/// A split of `s` into numerals is unique: the numerals contain no colon,
/// so at most one colon position can separate them.
proof fn lemma_body_unique(s: Seq<char>, h1: nat, m1: nat, h2: nat, m2: nat)
    requires
        spec_body(s, h1, m1),
        spec_body(s, h2, m2),
    ensures
        h1 == h2,
        m1 == m2,
{
    if spec_digits(s) {
        // A colon split would put a colon inside an all-digit sequence.
        assert forall|ci: int| 0 <= ci < s.len() implies s[ci] != ':' by {
            assert(spec_is_digit(s[ci]));
        }
    } else {
        let ci1 = choose|ci: int|
            #![trigger s.subrange(0, ci)]
            0 <= ci < s.len() && s[ci] == ':' && spec_digits(s.subrange(0, ci))
                && spec_digits(s.subrange(ci + 1, s.len() as int)) && h1 == spec_dec_value(
                s.subrange(0, ci),
            ) && m1 == spec_dec_value(s.subrange(ci + 1, s.len() as int));
        let ci2 = choose|ci: int|
            #![trigger s.subrange(0, ci)]
            0 <= ci < s.len() && s[ci] == ':' && spec_digits(s.subrange(0, ci))
                && spec_digits(s.subrange(ci + 1, s.len() as int)) && h2 == spec_dec_value(
                s.subrange(0, ci),
            ) && m2 == spec_dec_value(s.subrange(ci + 1, s.len() as int));
        if ci1 < ci2 {
            assert(spec_is_digit(s.subrange(0, ci2)[ci1]));
            assert(s.subrange(0, ci2)[ci1] == s[ci1]);
        }
        if ci2 < ci1 {
            assert(spec_is_digit(s.subrange(0, ci1)[ci2]));
            assert(s.subrange(0, ci1)[ci2] == s[ci2]);
        }
        assert(ci1 == ci2);
    }
}

/// Reads the numeral in `text[from..to]`: `None` unless that range is a
/// non-empty run of digits, else its value capped at 1000.
fn component(text: &str, from: usize, to: usize) -> (r: Option<u32>)
    requires
        from <= to <= text@.len(),
    ensures
        ({
            let part = text@.subrange(from as int, to as int);
            &&& (r matches Some(v) ==> spec_digits(part) && v as nat == spec_cap(
                spec_dec_value(part),
            ))
            &&& (r is None ==> !spec_digits(part))
        }),
{
    if from == to {
        return None;
    }
    let ghost part = text@.subrange(from as int, to as int);
    let mut acc: u32 = 0;
    let mut i: usize = from;
    while i < to
        invariant
            from <= i <= to <= text@.len(),
            part == text@.subrange(from as int, to as int),
            spec_all_digits(text@.subrange(from as int, i as int)),
            acc <= 1000,
            spec_dec_value(text@.subrange(from as int, i as int)) <= 1000 ==> acc as nat
                == spec_dec_value(text@.subrange(from as int, i as int)),
            spec_dec_value(text@.subrange(from as int, i as int)) > 1000 ==> acc == 1000,
        decreases to - i,
    {
        let c = text.get_char(i);
        let cv = c as u32;
        if cv < 48 || cv > 57 {
            proof {
                assert(part[i - from] == text@[i as int]);
                assert(!spec_is_digit(part[i - from]));
            }
            return None;
        }
        let d = cv - 48;
        proof {
            let prefix = text@.subrange(from as int, i as int);
            let longer = text@.subrange(from as int, i + 1);
            assert(longer =~= prefix.push(text@[i as int]));
            assert(longer.drop_last() =~= prefix);
            assert(spec_dec_value(longer) == spec_dec_value(prefix) * 10 + spec_digit_val(
                text@[i as int],
            ));
        }
        let raw = acc * 10 + d;
        acc = if raw > 1000 {
            1000
        } else {
            raw
        };
        i += 1;
    }
    proof {
        assert(part =~= text@.subrange(from as int, i as int));
    }
    Some(acc)
}

/// Splits `text[0..end]` into hour and minute numerals, each capped at
/// 1000; `None` exactly when no split of the body exists.
fn parse_body(text: &str, end: usize) -> (r: Option<(u32, u32)>)
    requires
        end <= text@.len(),
    ensures
        ({
            let s = text@.subrange(0, end as int);
            &&& (r matches Some(p) ==> exists|hh: nat, mm: nat|
                #![trigger spec_body(s, hh, mm)]
                spec_body(s, hh, mm) && p.0 as nat == spec_cap(hh) && p.1 as nat == spec_cap(mm))
            &&& (r is None ==> forall|hh: nat, mm: nat| !spec_body(s, hh, mm))
        }),
{
    let ghost s = text@.subrange(0, end as int);
    let mut i: usize = 0;
    let mut first: Option<usize> = None;
    let mut second: Option<usize> = None;
    while i < end
        invariant
            i <= end <= text@.len(),
            s == text@.subrange(0, end as int),
            first is None ==> second is None && (forall|j: int| 0 <= j < i ==> text@[j] != ':'),
            first matches Some(f) ==> f < i && text@[f as int] == ':' && (forall|j: int|
                0 <= j < f ==> text@[j] != ':'),
            second matches Some(sc) ==> (first matches Some(f) && f < sc < i && text@[sc as int]
                == ':'),
            first matches Some(f) ==> second is None ==> (forall|j: int|
                f < j < i ==> text@[j] != ':'),
        decreases end - i,
    {
        let c = text.get_char(i);
        if c == ':' {
            if first.is_none() {
                first = Some(i);
            } else if second.is_none() {
                second = Some(i);
            }
        }
        i += 1;
    }
    proof {
        assert forall|j: int| 0 <= j < s.len() implies s[j] == text@[j] by {}
    }
    match first {
        None => {
            match component(text, 0, end) {
                Some(v) => {
                    proof {
                        assert(s =~= text@.subrange(0, end as int));
                        assert(spec_body(s, spec_dec_value(s), 0));
                        assert(spec_cap(0) == 0);
                    }
                    Some((v, 0))
                },
                None => {
                    proof {
                        assert forall|hh: nat, mm: nat| !spec_body(s, hh, mm) by {
                            if spec_body(s, hh, mm) {
                                if !spec_digits(s) {
                                    let ci = choose|ci: int|
                                        #![trigger s.subrange(0, ci)]
                                        0 <= ci < s.len() && s[ci] == ':'
                                            && spec_digits(s.subrange(0, ci)) && spec_digits(
                                            s.subrange(ci + 1, s.len() as int),
                                        ) && hh == spec_dec_value(s.subrange(0, ci)) && mm
                                            == spec_dec_value(s.subrange(ci + 1, s.len() as int));
                                    assert(text@[ci] == ':');
                                }
                            }
                        }
                    }
                    None
                },
            }
        },
        Some(f) => {
            if second.is_some() {
                proof {
                    let sc = second->0;
                    assert forall|hh: nat, mm: nat| !spec_body(s, hh, mm) by {
                        if spec_body(s, hh, mm) {
                            if spec_digits(s) {
                                assert(spec_is_digit(s[f as int]));
                            } else {
                                let ci = choose|ci: int|
                                    #![trigger s.subrange(0, ci)]
                                    0 <= ci < s.len() && s[ci] == ':' && spec_digits(
                                        s.subrange(0, ci),
                                    ) && spec_digits(s.subrange(ci + 1, s.len() as int)) && hh
                                        == spec_dec_value(s.subrange(0, ci)) && mm
                                        == spec_dec_value(s.subrange(ci + 1, s.len() as int));
                                if ci < f as int {
                                    assert(text@[ci] == ':');
                                } else if ci == f as int {
                                    assert(s.subrange(ci + 1, s.len() as int)[sc as int - ci - 1]
                                        == s[sc as int]);
                                    assert(spec_is_digit(s[sc as int]));
                                } else {
                                    assert(s.subrange(0, ci)[f as int] == s[f as int]);
                                    assert(spec_is_digit(s[f as int]));
                                }
                            }
                        }
                    }
                }
                None
            } else {
                let h = component(text, 0, f);
                let m = component(text, f + 1, end);
                proof {
                    assert(s.subrange(0, f as int) =~= text@.subrange(0, f as int));
                    assert(s.subrange(f + 1, s.len() as int) =~= text@.subrange(
                        f + 1,
                        end as int,
                    ));
                }
                match (h, m) {
                    (Some(hv), Some(mv)) => {
                        proof {
                            let hh = spec_dec_value(s.subrange(0, f as int));
                            let mm = spec_dec_value(s.subrange(f + 1, s.len() as int));
                            assert(spec_body(s, hh, mm));
                        }
                        Some((hv, mv))
                    },
                    _ => {
                        proof {
                            assert forall|hh: nat, mm: nat| !spec_body(s, hh, mm) by {
                                if spec_body(s, hh, mm) {
                                    if spec_digits(s) {
                                        assert(spec_is_digit(s[f as int]));
                                    } else {
                                        let ci = choose|ci: int|
                                            #![trigger s.subrange(0, ci)]
                                        0 <= ci < s.len() && s[ci] == ':'
                                                && spec_digits(s.subrange(0, ci)) && spec_digits(
                                                s.subrange(ci + 1, s.len() as int),
                                            ) && hh == spec_dec_value(s.subrange(0, ci)) && mm
                                                == spec_dec_value(
                                                s.subrange(ci + 1, s.len() as int),
                                            );
                                        if ci < f as int {
                                            assert(text@[ci] == ':');
                                        } else if ci > f as int {
                                            assert(s.subrange(0, ci)[f as int] == s[f as int]);
                                            assert(spec_is_digit(s[f as int]));
                                        }
                                        assert(ci == f as int);
                                    }
                                }
                            }
                        }
                        None
                    },
                }
            }
        },
    }
}

impl Time {
    /// Both fields are in range: this is the type's invariant.
    pub open spec fn wf(&self) -> bool {
        self.hour <= 23 && self.minute <= 59
    }

    /// Parses user text in 24-hour or 12-hour form, per `spec_time_of`.
    /// Fails, with a message naming the offending text, exactly when the
    /// text denotes no time.
    #[verifier::rlimit(60)]
    #[verifier::spinoff_prover]
    pub fn parse(text: &str) -> (r: Result<Time, Error>)
        ensures
            r matches Ok(t) ==> t.wf() && spec_time_of(text@, t.hour as nat, t.minute as nat),
            r is Ok <==> spec_time_text_valid(text@),
            r matches Err(e) ==> e matches Error::Parse(msg) && msg@ == spec_parse_error_message(
                text@,
            ),
    {
        let n = text.unicode_len();
        let mut is_am = false;
        let mut is_pm = false;
        if n >= 2 {
            let c1 = text.get_char(n - 2);
            let c2 = text.get_char(n - 1);
            let m_ok = c2 == 'm' || c2 == 'M';
            is_am = m_ok && (c1 == 'a' || c1 == 'A');
            is_pm = m_ok && (c1 == 'p' || c1 == 'P');
        }
        proof {
            assert(is_am == spec_has_am(text@));
            assert(is_pm == spec_has_pm(text@));
        }
        if is_am || is_pm {
            let mut end = n - 2;
            proof {
                assert(text@.take(text@.len() - 2) =~= text@.subrange(0, end as int));
            }
            while end > 0 && text.get_char(end - 1) == ' '
                invariant
                    end <= text@.len() - 2,
                    spec_trim_end(text@.take(text@.len() - 2)) == spec_trim_end(
                        text@.subrange(0, end as int),
                    ),
                decreases end,
            {
                proof {
                    let cur = text@.subrange(0, end as int);
                    assert(cur.last() == ' ');
                    assert(cur.drop_last() =~= text@.subrange(0, end - 1));
                }
                end -= 1;
            }
            proof {
                let cur = text@.subrange(0, end as int);
                assert(spec_trim_end(cur) == cur);
            }
            let body = parse_body(text, end);
            match body {
                Some((h, m)) => {
                    if 1 <= h && h <= 12 && m <= 59 {
                        let hour: u8 = if is_pm {
                            if h == 12 {
                                12
                            } else {
                                (h + 12) as u8
                            }
                        } else {
                            if h == 12 {
                                0
                            } else {
                                h as u8
                            }
                        };
                        let t = Time { hour, minute: m as u8 };
                        proof {
                            let bseq = spec_trim_end(text@.take(text@.len() - 2));
                            let (hh, mm) = choose|hh: nat, mm: nat|
                                #![trigger spec_body(bseq, hh, mm)]
                                spec_body(bseq, hh, mm) && h as nat == spec_cap(hh) && m as nat
                                    == spec_cap(mm);
                            assert(hh == h as nat && mm == m as nat);
                            assert(spec_time_of(text@, t.hour as nat, t.minute as nat));
                            assert(spec_time_text_valid(text@));
                        }
                        Ok(t)
                    } else {
                        proof {
                            let bseq = spec_trim_end(text@.take(text@.len() - 2));
                            let (hh, mm) = choose|hh: nat, mm: nat|
                                #![trigger spec_body(bseq, hh, mm)]
                                spec_body(bseq, hh, mm) && h as nat == spec_cap(hh) && m as nat
                                    == spec_cap(mm);
                            assert forall|hour: nat, minute: nat|
                                !spec_time_of(text@, hour, minute) by {
                                if spec_time_of(text@, hour, minute) {
                                    let (h2, m2) = choose|h2: nat, m2: nat|
                                        #![trigger spec_body(bseq, h2, m2)]
                                        spec_body(bseq, h2, m2) && 1 <= h2 <= 12 && m2 <= 59
                                            && hour == spec_hour12_to24(h2, spec_has_pm(text@))
                                            && minute == m2;
                                    lemma_body_unique(bseq, hh, mm, h2, m2);
                                }
                            }
                            assert(!spec_time_text_valid(text@));
                        }
                        Err(Error::Parse(String::from_str("Invalid time: ").concat(text)))
                    }
                },
                None => {
                    proof {
                        assert forall|hour: nat, minute: nat|
                            !spec_time_of(text@, hour, minute) by {}
                        assert(!spec_time_text_valid(text@));
                    }
                    Err(Error::Parse(String::from_str("Invalid time: ").concat(text)))
                },
            }
        } else {
            proof {
                assert(text@.subrange(0, n as int) =~= text@);
            }
            let body = parse_body(text, n);
            match body {
                Some((h, m)) => {
                    if h <= 23 && m <= 59 {
                        let t = Time { hour: h as u8, minute: m as u8 };
                        proof {
                            let (hh, mm) = choose|hh: nat, mm: nat|
                                #![trigger spec_body(text@, hh, mm)]
                                spec_body(text@, hh, mm) && h as nat == spec_cap(hh) && m as nat
                                    == spec_cap(mm);
                            assert(hh == h as nat && mm == m as nat);
                            assert(spec_time_of(text@, t.hour as nat, t.minute as nat));
                            assert(spec_time_text_valid(text@));
                        }
                        Ok(t)
                    } else {
                        proof {
                            let (hh, mm) = choose|hh: nat, mm: nat|
                                #![trigger spec_body(text@, hh, mm)]
                                spec_body(text@, hh, mm) && h as nat == spec_cap(hh) && m as nat
                                    == spec_cap(mm);
                            assert forall|hour: nat, minute: nat|
                                !spec_time_of(text@, hour, minute) by {
                                if spec_time_of(text@, hour, minute) {
                                    lemma_body_unique(text@, hh, mm, hour, minute);
                                }
                            }
                            assert(!spec_time_text_valid(text@));
                        }
                        Err(Error::Parse(String::from_str("Invalid time: ").concat(text)))
                    }
                },
                None => {
                    proof {
                        assert forall|hour: nat, minute: nat|
                            !spec_time_of(text@, hour, minute) by {}
                        assert(!spec_time_text_valid(text@));
                    }
                    Err(Error::Parse(String::from_str("Invalid time: ").concat(text)))
                },
            }
        }
    }

    /// Decodes an (hour, minute) byte pair as the backing store holds it.
    /// The store is expected never to hand back an out-of-range pair, but
    /// the check is kept: trusting it blindly would let an invalid `Time`
    /// exist.
    pub fn from_pair(hour: u8, minute: u8) -> (r: Result<Time, Error>)
        ensures
            r is Ok <==> hour <= 23 && minute <= 59,
            r matches Ok(t) ==> t == (Time { hour, minute }) && t.wf(),
            r matches Err(e) ==> e matches Error::Parse(msg) && msg@
                == "Stored time is out of range"@,
    {
        if hour <= 23 && minute <= 59 {
            Ok(Time { hour, minute })
        } else {
            Err(Error::Parse(String::from_str("Stored time is out of range")))
        }
    }

    /// Encodes the time back into the pair the backing store expects:
    /// the lossless inverse of `from_pair`.
    pub fn to_pair(&self) -> (r: (u8, u8))
        ensures
            r == (self.hour, self.minute),
    {
        (self.hour, self.minute)
    }

    /// The digits of `d`, for a single digit.
    pub open spec fn spec_digit_str(d: nat) -> Seq<char> {
        if d == 0 {
            "0"@
        } else if d == 1 {
            "1"@
        } else if d == 2 {
            "2"@
        } else if d == 3 {
            "3"@
        } else if d == 4 {
            "4"@
        } else if d == 5 {
            "5"@
        } else if d == 6 {
            "6"@
        } else if d == 7 {
            "7"@
        } else if d == 8 {
            "8"@
        } else {
            "9"@
        }
    }

    /// The digits of the 12-hour form of `hour` (1 through 12).
    pub open spec fn spec_hour12_str(hour: nat) -> Seq<char> {
        let h12 = if hour == 0 {
            12
        } else if hour > 12 {
            (hour - 12) as nat
        } else {
            hour
        };
        if h12 == 10 {
            "10"@
        } else if h12 == 11 {
            "11"@
        } else if h12 == 12 {
            "12"@
        } else {
            Time::spec_digit_str(h12)
        }
    }

    /// The canonical display form: 12-hour with an AM/PM suffix, the
    /// minute always two digits (hour 0 reads "12:00 AM", hour 13 reads
    /// "1:00 PM").
    pub open spec fn display_spec(&self) -> Seq<char> {
        Time::spec_hour12_str(self.hour as nat) + ":"@ + Time::spec_digit_str(
            self.minute as nat / 10,
        ) + Time::spec_digit_str(self.minute as nat % 10) + (if self.hour < 12 {
            " AM"@
        } else {
            " PM"@
        })
    }

    /// Renders the time in the form a human reads back.
    pub fn display_string(&self) -> (r: String)
        requires
            self.wf(),
        ensures
            r@ == self.display_spec(),
    {
        let h12: u8 = if self.hour == 0 {
            12
        } else if self.hour > 12 {
            self.hour - 12
        } else {
            self.hour
        };
        let mut s = if h12 == 10 {
            String::from_str("10")
        } else if h12 == 11 {
            String::from_str("11")
        } else if h12 == 12 {
            String::from_str("12")
        } else {
            String::from_str(digit_str(h12))
        };
        s.append(":");
        s.append(digit_str(self.minute / 10));
        s.append(digit_str(self.minute % 10));
        if self.hour < 12 {
            s.append(" AM");
        } else {
            s.append(" PM");
        }
        proof {
            assert(s@ =~= self.display_spec());
        }
        s
    }
}

/// The single-character numeral for a digit.
fn digit_str(d: u8) -> (r: &'static str)
    requires
        d <= 9,
    ensures
        r@ == Time::spec_digit_str(d as nat),
{
    if d == 0 {
        "0"
    } else if d == 1 {
        "1"
    } else if d == 2 {
        "2"
    } else if d == 3 {
        "3"
    } else if d == 4 {
        "4"
    } else if d == 5 {
        "5"
    } else if d == 6 {
        "6"
    } else if d == 7 {
        "7"
    } else if d == 8 {
        "8"
    } else {
        "9"
    }
}

/// Law: the grammar is a function — one text denotes at most one time.
pub proof fn lemma_parse_deterministic(s: Seq<char>, h1: nat, m1: nat, h2: nat, m2: nat)
    requires
        spec_time_of(s, h1, m1),
        spec_time_of(s, h2, m2),
    ensures
        h1 == h2,
        m1 == m2,
{
    if spec_has_am(s) || spec_has_pm(s) {
        let bseq = spec_trim_end(s.take(s.len() - 2));
        let (ha, ma) = choose|ha: nat, ma: nat|
            #![trigger spec_body(bseq, ha, ma)]
            spec_body(bseq, ha, ma) && 1 <= ha <= 12 && ma <= 59 && h1 == spec_hour12_to24(
                ha,
                spec_has_pm(s),
            ) && m1 == ma;
        let (hb, mb) = choose|hb: nat, mb: nat|
            #![trigger spec_body(bseq, hb, mb)]
            spec_body(bseq, hb, mb) && 1 <= hb <= 12 && mb <= 59 && h2 == spec_hour12_to24(
                hb,
                spec_has_pm(s),
            ) && m2 == mb;
        lemma_body_unique(bseq, ha, ma, hb, mb);
    } else {
        lemma_body_unique(s, h1, m1, h2, m2);
    }
}

} // verus!
