//! The base render context: environment facts (project directory name and
//! path, current UTC date and time, optional version-control identity) as an
//! ordered list of key/value pairs.

use vstd::prelude::*;

verus! {

/// The decimal digit character for `d`.
pub open spec fn digit_char(d: int) -> char {
    if d == 0 {
        '0'
    } else if d == 1 {
        '1'
    } else if d == 2 {
        '2'
    } else if d == 3 {
        '3'
    } else if d == 4 {
        '4'
    } else if d == 5 {
        '5'
    } else if d == 6 {
        '6'
    } else if d == 7 {
        '7'
    } else if d == 8 {
        '8'
    } else {
        '9'
    }
}

/// The decimal digits of `n`, most significant first.
pub open spec fn dec_str(n: nat) -> Seq<char>
    decreases n,
{
    if n < 10 {
        seq![digit_char(n as int)]
    } else {
        dec_str(n / 10).push(digit_char((n % 10) as int))
    }
}

/// `k` zero characters.
pub open spec fn zeroes(k: nat) -> Seq<char> {
    Seq::new(k, |i: int| '0')
}

/// The decimal digits of `n`, zero-padded on the left to at least `width`
/// characters.
pub open spec fn padded_dec(n: nat, width: nat) -> Seq<char> {
    if dec_str(n).len() >= width {
        dec_str(n)
    } else {
        zeroes((width - dec_str(n).len()) as nat) + dec_str(n)
    }
}

/// The `YYYY-MM-DD` form of a date (more digits for a year beyond 9999).
pub open spec fn date_str(y: nat, m: nat, d: nat) -> Seq<char> {
    padded_dec(y, 4) + seq!['-'] + padded_dec(m, 2) + seq!['-'] + padded_dec(d, 2)
}

/// The `HH:MM:SS` form of a time of day.
pub open spec fn time_str(h: nat, mi: nat, s: nat) -> Seq<char> {
    padded_dec(h, 2) + seq![':'] + padded_dec(mi, 2) + seq![':'] + padded_dec(s, 2)
}

/// One decimal digit as a string.
fn digit_string(d: u32) -> (r: String)
    requires
        d < 10,
    ensures
        r@ == seq![digit_char(d as int)],
{
    let r = match d {
        0 => String::from_str("0"),
        1 => String::from_str("1"),
        2 => String::from_str("2"),
        3 => String::from_str("3"),
        4 => String::from_str("4"),
        5 => String::from_str("5"),
        6 => String::from_str("6"),
        7 => String::from_str("7"),
        8 => String::from_str("8"),
        _ => String::from_str("9"),
    };
    proof {
        reveal_strlit("0");
        reveal_strlit("1");
        reveal_strlit("2");
        reveal_strlit("3");
        reveal_strlit("4");
        reveal_strlit("5");
        reveal_strlit("6");
        reveal_strlit("7");
        reveal_strlit("8");
        reveal_strlit("9");
        assert(r@ =~= seq![digit_char(d as int)]);
    }
    r
}

/// The decimal digits of `n`.
fn dec_string(n: u32) -> (r: String)
    ensures
        r@ == dec_str(n as nat),
    decreases n,
{
    if n < 10 {
        digit_string(n)
    } else {
        let mut r = dec_string(n / 10);
        let low = digit_string(n % 10);
        r.append(low.as_str());
        proof {
            assert(r@ =~= dec_str((n / 10) as nat).push(digit_char((n % 10) as int)));
        }
        r
    }
}

/// The decimal digits of `n`, zero-padded on the left to at least `width`
/// characters.
fn padded_dec_string(n: u32, width: usize) -> (r: String)
    ensures
        r@ == padded_dec(n as nat, width as nat),
{
    let mut r = dec_string(n);
    let ghost digits = dec_str(n as nat);
    proof {
        reveal_strlit("0");
    }
    while r.as_str().unicode_len() < width
        invariant
            digits == dec_str(n as nat),
            digits.len() >= 1,
            r@.len() >= digits.len(),
            r@ =~= zeroes((r@.len() - digits.len()) as nat) + digits,
            r@.len() > digits.len() ==> r@.len() <= width,
        decreases width - r@.len(),
    {
        let ghost before = r@;
        let z = String::from_str("0");
        proof {
            reveal_strlit("0");
            assert(z@ =~= seq!['0']);
        }
        r = z.concat(r.as_str());
        proof {
            assert(r@ == seq!['0'] + before);
            assert(r@.len() == before.len() + 1);
            assert(r@ =~= zeroes((r@.len() - digits.len()) as nat) + digits) by {
                assert(r@ =~= seq!['0'] + (zeroes((before.len() - digits.len()) as nat) + digits));
                assert(seq!['0'] + zeroes((before.len() - digits.len()) as nat) =~= zeroes(
                    (r@.len() - digits.len()) as nat,
                ));
                assert(seq!['0'] + (zeroes((before.len() - digits.len()) as nat) + digits) =~= (
                seq!['0'] + zeroes((before.len() - digits.len()) as nat)) + digits);
            }
        }
    }
    proof {
        if digits.len() >= width {
            assert(r@ =~= digits);
        }
        assert(r@ =~= padded_dec(n as nat, width as nat));
    }
    r
}

/// The `YYYY-MM-DD` form of a date.
pub fn format_date(y: u32, m: u32, d: u32) -> (r: String)
    ensures
        r@ == date_str(y as nat, m as nat, d as nat),
{
    let mut r = padded_dec_string(y, 4);
    let dash = String::from_str("-");
    let ms = padded_dec_string(m, 2);
    let ds = padded_dec_string(d, 2);
    r.append(dash.as_str());
    r.append(ms.as_str());
    r.append(dash.as_str());
    r.append(ds.as_str());
    proof {
        reveal_strlit("-");
        assert(dash@ =~= seq!['-']);
        assert(r@ =~= date_str(y as nat, m as nat, d as nat));
    }
    r
}

/// The `HH:MM:SS` form of a time of day.
pub fn format_time(h: u32, mi: u32, s: u32) -> (r: String)
    ensures
        r@ == time_str(h as nat, mi as nat, s as nat),
{
    let mut r = padded_dec_string(h, 2);
    let colon = String::from_str(":");
    let ms = padded_dec_string(mi, 2);
    let ss = padded_dec_string(s, 2);
    r.append(colon.as_str());
    r.append(ms.as_str());
    r.append(colon.as_str());
    r.append(ss.as_str());
    proof {
        reveal_strlit(":");
        assert(colon@ =~= seq![':']);
        assert(r@ =~= time_str(h as nat, mi as nat, s as nat));
    }
    r
}

/// The fact list for the given environment facts, in insertion order: the
/// project directory's name and path, the formatted current date and time,
/// then the version-control identity where it is known (its absence is
/// silent, the keys simply do not appear).
pub open spec fn context_facts(
    name: Seq<char>,
    path: Seq<char>,
    y: nat,
    m: nat,
    d: nat,
    h: nat,
    mi: nat,
    s: nat,
    git_name: Option<Seq<char>>,
    git_email: Option<Seq<char>>,
) -> Seq<(Seq<char>, Seq<char>)> {
    seq![
        ("project_directory_name"@, name),
        ("project_directory_path"@, path),
        ("current_date"@, date_str(y, m, d)),
        ("current_time"@, time_str(h, mi, s)),
    ] + (match git_name {
        Some(n) => seq![("git_user_name"@, n)],
        None => Seq::empty(),
    }) + (match git_email {
        Some(e) => seq![("git_user_email"@, e)],
        None => Seq::empty(),
    })
}

/// Builds the fact list from already-gathered environment facts.
pub fn build_context(
    project_dir_name: &str,
    project_dir_path: &str,
    y: u32,
    m: u32,
    d: u32,
    h: u32,
    mi: u32,
    s: u32,
    git_user_name: Option<String>,
    git_user_email: Option<String>,
) -> (r: Vec<(String, String)>)
    ensures
        r.deep_view() == context_facts(
            project_dir_name@,
            project_dir_path@,
            y as nat,
            m as nat,
            d as nat,
            h as nat,
            mi as nat,
            s as nat,
            git_user_name.deep_view(),
            git_user_email.deep_view(),
        ),
{
    let mut r: Vec<(String, String)> = Vec::new();
    r.push((String::from_str("project_directory_name"), String::from_str(project_dir_name)));
    r.push((String::from_str("project_directory_path"), String::from_str(project_dir_path)));
    r.push((String::from_str("current_date"), format_date(y, m, d)));
    r.push((String::from_str("current_time"), format_time(h, mi, s)));
    if let Some(n) = git_user_name {
        r.push((String::from_str("git_user_name"), n));
    }
    if let Some(e) = git_user_email {
        r.push((String::from_str("git_user_email"), e));
    }
    proof {
        assert(r.deep_view() =~= context_facts(
            project_dir_name@,
            project_dir_path@,
            y as nat,
            m as nat,
            d as nat,
            h as nat,
            mi as nat,
            s as nat,
            git_user_name.deep_view(),
            git_user_email.deep_view(),
        ));
    }
    r
}

/// Relies on chrono: `Utc::now` read once, its calendar fields through
/// `Datelike` (month 1 to 12, day 1 to 31), and the time-of-day fields
/// through `Timelike` (hour 0 to 23, minute and second 0 to 59) after
/// `round_subsecs(0)` has rounded away the sub-second component. The clock
/// decides the values, so only their documented ranges are promised.
#[verifier::external_body]
fn utc_now_fields() -> (r: (u32, u32, u32, u32, u32, u32))
    ensures
        1 <= r.1 <= 12,
        1 <= r.2 <= 31,
        r.3 <= 23,
        r.4 <= 59,
        r.5 <= 59,
{
    let now = chrono::Utc::now();
    let t = chrono::SubsecRound::round_subsecs(now.time(), 0);
    (
        chrono::Datelike::year(&now) as u32,
        chrono::Datelike::month(&now),
        chrono::Datelike::day(&now),
        chrono::Timelike::hour(&t),
        chrono::Timelike::minute(&t),
        chrono::Timelike::second(&t),
    )
}

/// Builds the base render context from the project directory's name and
/// path, the clock, and an optional version-control identity: the keys and
/// their order are fixed, the date and time values come from the clock but
/// always have the formatted `YYYY-MM-DD` and `HH:MM:SS` shapes.
pub fn template_context(
    project_dir_name: &str,
    project_dir_path: &str,
    git_user_name: Option<String>,
    git_user_email: Option<String>,
) -> (r: Vec<(String, String)>)
    ensures
        exists|y: nat, m: nat, d: nat, h: nat, mi: nat, s: nat|
            1 <= m <= 12 && 1 <= d <= 31 && h <= 23 && mi <= 59 && s <= 59 && r.deep_view()
                == #[trigger] context_facts(
                project_dir_name@,
                project_dir_path@,
                y,
                m,
                d,
                h,
                mi,
                s,
                git_user_name.deep_view(),
                git_user_email.deep_view(),
            ),
{
    let (y, m, d, h, mi, s) = utc_now_fields();
    let r = build_context(
        project_dir_name,
        project_dir_path,
        y,
        m,
        d,
        h,
        mi,
        s,
        git_user_name,
        git_user_email,
    );
    proof {
        assert(1 <= m as nat <= 12 && 1 <= d as nat <= 31 && h as nat <= 23 && mi as nat <= 59 && s
            as nat <= 59 && r.deep_view() == context_facts(
            project_dir_name@,
            project_dir_path@,
            y as nat,
            m as nat,
            d as nat,
            h as nat,
            mi as nat,
            s as nat,
            git_user_name.deep_view(),
            git_user_email.deep_view(),
        ));
    }
    r
}

} // verus!
