//! Naming new sandbox VMs: either a name the user gave (with the prefix put in
//! front unless it is there already or the name is exact), or a name rendered
//! from a template with `{prefix}`, `{os}`, `{date}`, `{time}` and `{rand}`,
//! retried until it is not taken.
use vstd::prelude::*;
use chrono::{Datelike, Timelike};
use rand::Rng;
use crate::cli::{OsType, os_name};
use crate::text::{
    ascii_lower, ascii_lower_char_exec, concat_strs, contains, decimal, is_ascii_alnum,
    lemma_replace_absent, lemma_replace_skip_prefix, occurs_at, push_decimal, push_padded,
    replace, replace_exec, starts_with, starts_with_exec, str_eq, to_owned, zero_pad,
};
use crate::utm::strings_view;

verus! {

// ---------------------------------------------------------------------------
// Names the user gives
// ---------------------------------------------------------------------------
/// Whether `name` is one of `existing`.
pub open spec fn taken(existing: Seq<String>, name: Seq<char>) -> bool {
    strings_view(existing).contains(name)
}

/// Whether a name is among the existing ones.
pub fn is_taken(existing: &Vec<String>, name: &str) -> (r: bool)
    ensures
        r == taken(existing@, name@),
{
    let mut i: usize = 0;
    while i < existing.len()
        invariant
            i <= existing@.len(),
            forall|j: int| 0 <= j < i ==> #[trigger] existing@[j]@ != name@,
        decreases existing.len() - i,
    {
        if str_eq(existing[i].as_str(), name) {
            assert(strings_view(existing@)[i as int] == name@);
            return true;
        }
        i += 1;
    }
    proof {
        if strings_view(existing@).contains(name@) {
            let j = choose|j: int|
                0 <= j < strings_view(existing@).len() && strings_view(existing@)[j] == name@;
            assert(existing@[j]@ == name@);
        }
    }
    false
}

/// The name a user-given name becomes: the prefix goes in front unless the
/// name is exact or already starts with it.
pub open spec fn custom_name(prefix: Seq<char>, name: Seq<char>, exact: bool) -> Seq<char> {
    if exact || starts_with(name, prefix) {
        name
    } else {
        prefix + name
    }
}

/// Why no name could be chosen.
pub enum NameError {
    /// The name asked for is taken.
    AlreadyExists(String),
    /// Every rendered name was taken.
    Exhausted(u8),
}

/// `NameError` over plain values.
pub enum NameErrorView {
    AlreadyExists(Seq<char>),
    Exhausted(u8),
}

impl View for NameError {
    type V = NameErrorView;

    open spec fn view(&self) -> NameErrorView {
        match self {
            NameError::AlreadyExists(n) => NameErrorView::AlreadyExists(n@),
            NameError::Exhausted(k) => NameErrorView::Exhausted(*k),
        }
    }
}

/// The message of each naming error.
pub open spec fn name_error_message(e: NameErrorView) -> Seq<char> {
    match e {
        NameErrorView::AlreadyExists(n) => "vm name '"@ + n + "' already exists"@,
        NameErrorView::Exhausted(k) => "failed to generate unique vm name after "@ + decimal(
            k as nat,
        ) + " retries"@,
    }
}

impl NameError {
    /// The message shown for the error.
    pub fn message(&self) -> (r: String)
        ensures
            r@ == name_error_message(self@),
    {
        match self {
            NameError::AlreadyExists(n) => {
                let mut r = to_owned("vm name '");
                crate::text::push_str(&mut r, n.as_str());
                crate::text::push_str(&mut r, "' already exists");
                r
            },
            NameError::Exhausted(k) => {
                let mut r = to_owned("failed to generate unique vm name after ");
                push_decimal(&mut r, *k as u64);
                crate::text::push_str(&mut r, " retries");
                r
            },
        }
    }
}

/// The outcome for a name the user gave.
pub open spec fn custom_outcome(
    prefix: Seq<char>,
    name: Seq<char>,
    exact: bool,
    existing: Seq<String>,
) -> Result<Seq<char>, NameErrorView> {
    let n = custom_name(prefix, name, exact);
    if taken(existing, n) {
        Err(NameErrorView::AlreadyExists(n))
    } else {
        Ok(n)
    }
}

/// The plain values of a naming result.
pub open spec fn name_result_view(r: Result<String, NameError>) -> Result<Seq<char>, NameErrorView> {
    match r {
        Ok(n) => Ok(n@),
        Err(e) => Err(e@),
    }
}

/// Settles a name the user gave.
pub fn resolve_custom_name(prefix: &str, name: &str, name_exact: bool, existing: &Vec<String>) -> (r:
    Result<String, NameError>)
    ensures
        name_result_view(r) == custom_outcome(prefix@, name@, name_exact, existing@),
{
    let final_name = if name_exact || starts_with_exec(name, prefix) {
        to_owned(name)
    } else {
        concat_strs(prefix, name)
    };
    if is_taken(existing, final_name.as_str()) {
        return Err(NameError::AlreadyExists(final_name));
    }
    Ok(final_name)
}

// ---------------------------------------------------------------------------
// Names rendered from a template
// ---------------------------------------------------------------------------
/// The template with each placeholder replaced, in the order `{prefix}`,
/// `{os}`, `{date}`, `{time}`, `{rand}`.
pub open spec fn render(
    template: Seq<char>,
    prefix: Seq<char>,
    os: OsType,
    date: Seq<char>,
    time: Seq<char>,
    rand: Seq<char>,
) -> Seq<char> {
    replace(
        replace(
            replace(replace(replace(template, "{prefix}"@, prefix), "{os}"@, os_name(os)), "{date}"@, date),
            "{time}"@,
            time,
        ),
        "{rand}"@,
        rand,
    )
}

/// Renders a name template from the values of its placeholders.
pub fn render_template_with(
    template: &str,
    prefix: &str,
    os: OsType,
    date: &str,
    time: &str,
    rand: &str,
) -> (r: String)
    ensures
        r@ == render(template@, prefix@, os, date@, time@, rand@),
{
    proof {
        reveal_strlit("{prefix}");
        reveal_strlit("{os}");
        reveal_strlit("{date}");
        reveal_strlit("{time}");
        reveal_strlit("{rand}");
    }
    let a = replace_exec(template, "{prefix}", prefix);
    let b = replace_exec(a.as_str(), "{os}", os.as_str());
    let c = replace_exec(b.as_str(), "{date}", date);
    let d = replace_exec(c.as_str(), "{time}", time);
    replace_exec(d.as_str(), "{rand}", rand)
}

/// A local date and time as its calendar fields.
pub struct LocalClock {
    pub year: i32,
    pub month: u32,
    pub day: u32,
    pub hour: u32,
    pub minute: u32,
    pub second: u32,
    pub nanosecond: u32,
}

/// The fields are within the ranges `chrono` documents for them.
pub open spec fn clock_in_range(c: LocalClock) -> bool {
    1 <= c.month <= 12 && 1 <= c.day <= 31 && c.hour <= 23 && c.minute <= 59 && c.second <= 59
        && c.nanosecond < 2_000_000_000
}

/// The current local date and time (`chrono::Local::now`), by its fields.
/// Only the documented ranges of the fields are stated; the time itself is
/// the machine's.
#[verifier::external_body]
fn local_now() -> (r: LocalClock)
    ensures
        clock_in_range(r),
{
    let now = chrono::Local::now();
    LocalClock {
        year: now.year(),
        month: now.month(),
        day: now.day(),
        hour: now.hour(),
        minute: now.minute(),
        second: now.second(),
        nanosecond: now.nanosecond(),
    }
}

/// `%Y`: the year with at least four digits, and a sign when it is outside
/// 0..=9999.
pub open spec fn year_text(y: int) -> Seq<char> {
    if 0 <= y <= 9999 {
        zero_pad(decimal(y as nat), 4)
    } else if y < 0 {
        seq!['-'] + zero_pad(decimal((-y) as nat), 4)
    } else {
        seq!['+'] + zero_pad(decimal(y as nat), 4)
    }
}

/// A two-digit field (`%m`, `%d`, `%H`, `%M`, `%S`).
pub open spec fn two_digits(v: int) -> Seq<char> {
    zero_pad(decimal(v as nat), 2)
}

/// `%Y%m%d`.
pub open spec fn date_text(c: LocalClock) -> Seq<char> {
    year_text(c.year as int) + two_digits(c.month as int) + two_digits(c.day as int)
}

/// `%H%M%S`; a leap second shows as 60.
pub open spec fn time_text(c: LocalClock) -> Seq<char> {
    two_digits(c.hour as int) + two_digits(c.minute as int) + two_digits(
        c.second + c.nanosecond / 1_000_000_000,
    )
}

/// Renders `%Y%m%d` for a clock reading.
pub fn format_date(c: &LocalClock) -> (r: String)
    ensures
        r@ == date_text(*c),
{
    let mut r = String::new();
    let y = c.year;
    if 0 <= y && y <= 9999 {
        push_padded(&mut r, y as u64, 4);
    } else if y < 0 {
        r.push('-');
        let a: u64 = (0 - (y as i64)) as u64;
        push_padded(&mut r, a, 4);
    } else {
        r.push('+');
        push_padded(&mut r, y as u64, 4);
    }
    push_padded(&mut r, c.month as u64, 2);
    push_padded(&mut r, c.day as u64, 2);
    assert(r@ =~= date_text(*c));
    r
}

/// Renders `%H%M%S` for a clock reading.
pub fn format_time(c: &LocalClock) -> (r: String)
    requires
        clock_in_range(*c),
    ensures
        r@ == time_text(*c),
{
    let mut r = String::new();
    push_padded(&mut r, c.hour as u64, 2);
    push_padded(&mut r, c.minute as u64, 2);
    let s: u64 = c.second as u64 + (c.nanosecond / 1_000_000_000) as u64;
    push_padded(&mut r, s, 2);
    assert(r@ =~= time_text(*c));
    r
}

/// `len` characters drawn at random from the ASCII letters and digits
/// (`rand::distr::Alphanumeric` on the thread generator). Their length and
/// alphabet are stated; which characters come out is chance.
#[verifier::external_body]
fn random_alphanumeric(len: usize) -> (r: Vec<char>)
    ensures
        r@.len() == len,
        forall|i: int| 0 <= i < r@.len() ==> is_ascii_alnum(#[trigger] r@[i]),
{
    rand::rng().sample_iter(&rand::distr::Alphanumeric).take(len).map(char::from).collect()
}

/// A possible `{rand}` value: `len` lower-case ASCII letters and digits.
pub open spec fn valid_rand(r: Seq<char>, len: usize) -> bool {
    r.len() == len && forall|i: int| 0 <= i < r.len() ==> is_ascii_alnum(#[trigger] r[i])
        && r[i] == ascii_lower(r)[i]
}

/// A name rendered from the template with some clock reading and some valid
/// random part.
pub open spec fn renderable(
    name: Seq<char>,
    template: Seq<char>,
    prefix: Seq<char>,
    os: OsType,
    rand_len: usize,
) -> bool {
    exists|c: LocalClock, rand: Seq<char>|
        clock_in_range(c) && valid_rand(rand, rand_len) && name == render(
            template,
            prefix,
            os,
            date_text(c),
            time_text(c),
            rand,
        )
}

/// The random part of a name: `rand_len` letters and digits, lower-cased.
fn random_part(rand_len: usize) -> (r: String)
    ensures
        valid_rand(r@, rand_len),
{
    let chars = random_alphanumeric(rand_len);
    let mut r = String::new();
    let mut i: usize = 0;
    while i < chars.len()
        invariant
            i <= chars.len(),
            chars@.len() == rand_len,
            forall|j: int| 0 <= j < chars@.len() ==> is_ascii_alnum(#[trigger] chars@[j]),
            r@ == ascii_lower(chars@.take(i as int)),
        decreases chars.len() - i,
    {
        let c = ascii_lower_char_exec(chars[i]);
        r.push(c);
        assert(ascii_lower(chars@.take(i + 1)) =~= ascii_lower(chars@.take(i as int)).push(c));
        i += 1;
    }
    assert(chars@.take(chars@.len() as int) =~= chars@);
    assert forall|j: int| 0 <= j < r@.len() implies is_ascii_alnum(#[trigger] r@[j]) && r@[j]
        == ascii_lower(r@)[j] by {
        assert(is_ascii_alnum(chars@[j]));
    }
    r
}

/// Renders one candidate name from the current time and fresh randomness.
pub fn render_template(template: &str, prefix: &str, os: OsType, rand_len: usize) -> (r: String)
    ensures
        renderable(r@, template@, prefix@, os, rand_len),
{
    let now = local_now();
    let rand = random_part(rand_len);
    let date = format_date(&now);
    let time = format_time(&now);
    let r = render_template_with(template, prefix, os, date.as_str(), time.as_str(), rand.as_str());
    assert(renderable(r@, template@, prefix@, os, rand_len)) by {
        assert(clock_in_range(now) && valid_rand(rand@, rand_len) && r@ == render(
            template@,
            prefix@,
            os,
            date_text(now),
            time_text(now),
            rand@,
        ));
    }
    r
}

/// The first of the candidate names that is not taken.
pub open spec fn first_free(candidates: Seq<Seq<char>>, existing: Seq<String>) -> Option<Seq<char>>
    decreases candidates.len(),
{
    if candidates.len() == 0 {
        None
    } else if !taken(existing, candidates[0]) {
        Some(candidates[0])
    } else {
        first_free(candidates.drop_first(), existing)
    }
}

/// The first free candidate is one of the candidates and is not taken; when
/// there is none, every candidate is taken.
pub proof fn lemma_first_free(candidates: Seq<Seq<char>>, existing: Seq<String>)
    ensures
        match first_free(candidates, existing) {
            Some(n) => candidates.contains(n) && !taken(existing, n),
            None => forall|i: int| 0 <= i < candidates.len() ==> taken(existing, #[trigger] candidates[i]),
        },
    decreases candidates.len(),
{
    if candidates.len() > 0 && taken(existing, candidates[0]) {
        let rest = candidates.drop_first();
        lemma_first_free(rest, existing);
        match first_free(rest, existing) {
            Some(n) => {
                let j = choose|j: int| 0 <= j < rest.len() && rest[j] == n;
                assert(candidates[j + 1] == n);
            },
            None => {
                assert forall|i: int| 0 <= i < candidates.len() implies taken(
                    existing,
                    #[trigger] candidates[i],
                ) by {
                    if i > 0 {
                        assert(candidates[i] == rest[i - 1]);
                    }
                }
            },
        }
    }
}

/// Picks the first of the drawn candidate names that is not taken.
pub fn pick_free(candidates: &Vec<String>, existing: &Vec<String>) -> (r: Option<String>)
    ensures
        match r {
            Some(n) => first_free(strings_view(candidates@), existing@) == Some(n@),
            None => first_free(strings_view(candidates@), existing@) is None,
        },
{
    let ghost all = strings_view(candidates@);
    assert(all.skip(0) =~= all);
    let mut i: usize = 0;
    while i < candidates.len()
        invariant
            i <= candidates@.len(),
            all == strings_view(candidates@),
            first_free(all, existing@) == first_free(all.skip(i as int), existing@),
        decreases candidates.len() - i,
    {
        assert(all.skip(i as int)[0] == candidates@[i as int]@);
        if !is_taken(existing, candidates[i].as_str()) {
            return Some(candidates[i].clone());
        }
        assert(all.skip(i as int).drop_first() =~= all.skip(i + 1));
        i += 1;
    }
    assert(all.skip(i as int).len() == 0);
    None
}

/// No name the template can render is taken.
pub open spec fn none_taken(
    existing: Seq<String>,
    template: Seq<char>,
    prefix: Seq<char>,
    os: OsType,
    rand_len: usize,
) -> bool {
    forall|n: Seq<char>| #[trigger] renderable(n, template, prefix, os, rand_len) ==> !taken(existing, n)
}

/// Some `count` names the template can render are all taken.
pub open spec fn all_taken_draws(
    existing: Seq<String>,
    template: Seq<char>,
    prefix: Seq<char>,
    os: OsType,
    rand_len: usize,
    count: u8,
) -> bool {
    exists|c: Seq<Seq<char>>|
        c.len() == count && forall|i: int|
            0 <= i < c.len() ==> renderable(#[trigger] c[i], template, prefix, os, rand_len)
                && taken(existing, c[i])
}

/// What choosing a name may give: a user-given name is settled exactly;
/// otherwise a name rendered from the template (`name_template` if given,
/// else `naming_template`) that is not taken, or the error that the retries
/// ran out, which comes only when `max_retries` rendered names were all taken
/// (always so with no retries). So when no name the template can render is
/// taken and there is a retry, a name is found.
pub open spec fn generated(
    r: Result<Seq<char>, NameErrorView>,
    prefix: Seq<char>,
    naming_template: Seq<char>,
    rand_len: usize,
    max_retries: u8,
    os: OsType,
    custom_name: Option<Seq<char>>,
    exact: bool,
    name_template: Option<Seq<char>>,
    existing: Seq<String>,
) -> bool {
    match custom_name {
        Some(name) => r == custom_outcome(prefix, name, exact, existing),
        None => {
            let template = match name_template {
                Some(t) => t,
                None => naming_template,
            };
            &&& max_retries == 0 ==> r is Err
            &&& (max_retries > 0 && none_taken(existing, template, prefix, os, rand_len)) ==> r is Ok
            &&& match r {
                Ok(n) => !taken(existing, n) && renderable(n, template, prefix, os, rand_len),
                Err(e) => e == NameErrorView::Exhausted(max_retries) && all_taken_draws(
                    existing,
                    template,
                    prefix,
                    os,
                    rand_len,
                    max_retries,
                ),
            }
        },
    }
}

/// The plain value of an optional string slice.
pub open spec fn opt_str_view(o: Option<&str>) -> Option<Seq<char>> {
    match o {
        Some(s) => Some(s@),
        None => None,
    }
}

/// Chooses a name for a new VM. A name the user gave is settled exactly;
/// otherwise `naming_max_retries` names are rendered from the template and
/// the first that is not taken is chosen.
pub fn generate_name(
    prefix: &str,
    naming_template: &str,
    naming_rand_len: usize,
    naming_max_retries: u8,
    os: OsType,
    custom_name: Option<&str>,
    name_exact: bool,
    name_template: Option<&str>,
    existing: &Vec<String>,
) -> (r: Result<String, NameError>)
    ensures
        generated(
            name_result_view(r),
            prefix@,
            naming_template@,
            naming_rand_len,
            naming_max_retries,
            os,
            opt_str_view(custom_name),
            name_exact,
            opt_str_view(name_template),
            existing@,
        ),
{
    if let Some(name) = custom_name {
        return resolve_custom_name(prefix, name, name_exact, existing);
    }
    let template = match name_template {
        Some(t) => t,
        None => naming_template,
    };
    assert(template@ == (match opt_str_view(name_template) {
        Some(t) => t,
        None => naming_template@,
    }));
    let mut candidates: Vec<String> = Vec::new();
    let mut attempt: u8 = 0;
    while attempt < naming_max_retries
        invariant
            attempt <= naming_max_retries,
            candidates@.len() == attempt,
            forall|i: int|
                0 <= i < candidates@.len() ==> renderable(
                    #[trigger] candidates@[i]@,
                    template@,
                    prefix@,
                    os,
                    naming_rand_len,
                ),
        decreases naming_max_retries - attempt,
    {
        let candidate = render_template(template, prefix, os, naming_rand_len);
        candidates.push(candidate);
        attempt += 1;
    }
    let ghost all = strings_view(candidates@);
    proof {
        lemma_first_free(all, existing@);
        assert forall|i: int| 0 <= i < all.len() implies renderable(
            #[trigger] all[i],
            template@,
            prefix@,
            os,
            naming_rand_len,
        ) by {
            assert(all[i] == candidates@[i]@);
        }
    }
    match pick_free(&candidates, existing) {
        Some(n) => {
            proof {
                let j = choose|j: int| 0 <= j < all.len() && all[j] == n@;
                assert(renderable(all[j], template@, prefix@, os, naming_rand_len));
            }
            Ok(n)
        },
        None => {
            proof {
                assert(all.len() == naming_max_retries);
                if naming_max_retries > 0 {
                    assert(renderable(all[0], template@, prefix@, os, naming_rand_len));
                }
                assert(all_taken_draws(
                    existing@,
                    template@,
                    prefix@,
                    os,
                    naming_rand_len,
                    naming_max_retries,
                ));
            }
            Err(NameError::Exhausted(naming_max_retries))
        },
    }
}

/// With retries allowed and no VM listed, choosing a rendered name always
/// succeeds.
pub proof fn law_name_found_when_none_listed(
    r: Result<Seq<char>, NameErrorView>,
    prefix: Seq<char>,
    naming_template: Seq<char>,
    rand_len: usize,
    max_retries: u8,
    os: OsType,
    name_template: Option<Seq<char>>,
    existing: Seq<String>,
)
    requires
        generated(
            r,
            prefix,
            naming_template,
            rand_len,
            max_retries,
            os,
            None,
            false,
            name_template,
            existing,
        ),
        max_retries > 0,
        existing.len() == 0,
    ensures
        r is Ok,
{
    let template = match name_template {
        Some(t) => t,
        None => naming_template,
    };
    assert(none_taken(existing, template, prefix, os, rand_len));
}

/// A user-given name always carries the prefix unless it is exact, and is
/// never one that is taken.
pub proof fn law_custom_name_prefixed(
    prefix: Seq<char>,
    name: Seq<char>,
    exact: bool,
    existing: Seq<String>,
)
    ensures
        custom_outcome(prefix, name, exact, existing) matches Ok(n) ==> !taken(existing, n) && (
        !exact ==> starts_with(n, prefix)),
{
    let n = custom_name(prefix, name, exact);
    if !exact && !starts_with(name, prefix) {
        assert((prefix + name).subrange(0, prefix.len() as int) =~= prefix);
    }
}

/// The default name template, `{prefix}{os}-{rand}`.
pub open spec fn default_template() -> Seq<char> {
    "{prefix}{os}-{rand}"@
}

proof fn lemma_not_contains(s: Seq<char>, pat: Seq<char>, k: int)
    requires
        pat.len() > 0,
        0 <= k < pat.len(),
        forall|i: int| 0 <= i <= s.len() - pat.len() ==> #[trigger] s[i + k] != pat[k],
    ensures
        !contains(s, pat),
{
    if contains(s, pat) {
        let i = choose|i: int| occurs_at(s, pat, i);
        assert(s.subrange(i, i + pat.len())[k] == pat[k]);
        assert(s[i + k] != pat[k]);
    }
}

/// With the default template, a name is the prefix, the OS, a dash and the
/// random part, for any prefix without `{` (a prefix such as `{os}` would
/// itself be rendered).
pub proof fn law_default_template_name(
    prefix: Seq<char>,
    os: OsType,
    date: Seq<char>,
    time: Seq<char>,
    rand: Seq<char>,
)
    requires
        forall|i: int| 0 <= i < prefix.len() ==> #[trigger] prefix[i] != '{',
    ensures
        render(default_template(), prefix, os, date, time, rand) == prefix + os_name(os) + "-"@
            + rand,
{
    reveal_strlit("{prefix}{os}-{rand}");
    reveal_strlit("{prefix}");
    reveal_strlit("{os}");
    reveal_strlit("{date}");
    reveal_strlit("{time}");
    reveal_strlit("{rand}");
    reveal_strlit("-");
    let t0 = default_template();
    let p_prefix = "{prefix}"@;
    let p_os = "{os}"@;
    let p_date = "{date}"@;
    let p_time = "{time}"@;
    let p_rand = "{rand}"@;
    let tail_os = seq!['{', 'o', 's', '}', '-', '{', 'r', 'a', 'n', 'd', '}'];
    let dash_rand = seq!['-', '{', 'r', 'a', 'n', 'd', '}'];
    let brace_rand = seq!['{', 'r', 'a', 'n', 'd', '}'];
    let osn = os_name(os);
    // {prefix}
    assert(t0 =~= p_prefix + tail_os);
    assert(starts_with(t0, p_prefix)) by {
        assert(t0.subrange(0, 8) =~= p_prefix);
    }
    assert(t0.skip(8) =~= tail_os);
    lemma_not_contains(tail_os, p_prefix, 1);
    lemma_replace_absent(tail_os, p_prefix, prefix);
    let t1 = replace(t0, p_prefix, prefix);
    assert(t1 == prefix + tail_os);
    // {os}
    lemma_replace_skip_prefix(prefix, tail_os, p_os, osn);
    assert(starts_with(tail_os, p_os)) by {
        assert(tail_os.subrange(0, 4) =~= p_os);
    }
    assert(tail_os.skip(4) =~= dash_rand);
    lemma_not_contains(dash_rand, p_os, 1);
    lemma_replace_absent(dash_rand, p_os, osn);
    let t2 = replace(t1, p_os, osn);
    assert(t2 =~= (prefix + osn) + dash_rand);
    let po = prefix + osn;
    assert forall|i: int| 0 <= i < po.len() implies #[trigger] po[i] != '{' by {
        if i >= prefix.len() {
            assert(po[i] == osn[i - prefix.len()]);
        }
    }
    // {date}
    lemma_replace_skip_prefix(po, dash_rand, p_date, date);
    lemma_not_contains(dash_rand, p_date, 1);
    lemma_replace_absent(dash_rand, p_date, date);
    let t3 = replace(t2, p_date, date);
    assert(t3 == po + dash_rand);
    // {time}
    lemma_replace_skip_prefix(po, dash_rand, p_time, time);
    lemma_not_contains(dash_rand, p_time, 1);
    lemma_replace_absent(dash_rand, p_time, time);
    let t4 = replace(t3, p_time, time);
    assert(t4 == po + dash_rand);
    // {rand}
    lemma_replace_skip_prefix(po, dash_rand, p_rand, rand);
    assert(dash_rand =~= seq!['-'] + brace_rand);
    lemma_replace_skip_prefix(seq!['-'], brace_rand, p_rand, rand);
    assert(starts_with(brace_rand, p_rand)) by {
        assert(brace_rand.subrange(0, 6) =~= p_rand);
    }
    assert(brace_rand.skip(6) =~= Seq::<char>::empty());
    assert(p_rand.len() == 6);
    assert(replace(Seq::<char>::empty(), p_rand, rand) == Seq::<char>::empty());
    assert(replace(brace_rand, p_rand, rand) == rand + replace(brace_rand.skip(6), p_rand, rand));
    assert(replace(brace_rand, p_rand, rand) =~= rand);
    let t5 = replace(t4, p_rand, rand);
    assert(t5 =~= po + seq!['-'] + rand);
    assert("-"@ =~= seq!['-']);
}

} // verus!
