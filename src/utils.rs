use vstd::prelude::*;

verus! {

/// What `regex::Regex::replace_all` gives for the pattern on the input with
/// an empty replacement, or `None` where the pattern does not compile.
pub uninterp spec fn regex_erased(pattern: Seq<char>, input: Seq<char>) -> Option<Seq<char>>;

/// Relies on regex::Regex::new, which compiles a pattern or refuses it, and on
/// Regex::replace_all, which replaces every non-overlapping match: the
/// outcome depends on the pattern and the input alone.
#[verifier::external_body]
fn erase_matches(pattern: &str, input: &str) -> (r: Option<String>)
    ensures
        r is None ==> regex_erased(pattern@, input@) is None,
        r matches Some(s) ==> regex_erased(pattern@, input@) == Some(s@),
{
    match regex::Regex::new(pattern) {
        Ok(re) => Some(re.replace_all(input, "").to_string()),
        Err(_) => None,
    }
}

/// An ANSI control sequence: escape, `[`, parameter bytes, a final byte.
pub open spec fn ansi_code_pattern() -> Seq<char> {
    "\x1b\\[[^@-~]*[@-~]"@
}

/// `input` with the ANSI control sequences removed.
pub open spec fn ansi_cropped(input: Seq<char>) -> Seq<char> {
    match regex_erased(ansi_code_pattern(), input) {
        Some(s) => s,
        None => input,
    }
}

/// Removes the ANSI escape sequences (colours, cursor moves) from `input`.
pub fn crop_ansi_codes(input: &str) -> (r: String)
    ensures
        r@ == ansi_cropped(input@),
{
    let pattern: &str = "\x1b\\[[^@-~]*[@-~]";
    assert(pattern@ == ansi_code_pattern());
    match erase_matches(pattern, input) {
        Some(s) => s,
        None => String::from_str(input),
    }
}

/// Both values when both are present.
pub fn option_zip<A, B>(a: Option<A>, b: Option<B>) -> (r: Option<(A, B)>)
    ensures
        r == (match (a, b) {
            (Some(x), Some(y)) => Some((x, y)),
            _ => None,
        }),
{
    match a {
        Some(x) => match b {
            Some(y) => Some((x, y)),
            None => None,
        },
        None => None,
    }
}

/// Pairs each item with whether it is the last one.
pub fn with_last<T>(items: Vec<T>) -> (r: Vec<(T, bool)>)
    ensures
        r@.len() == items@.len(),
        forall|k: int| 0 <= k < r@.len() ==> #[trigger] r@[k] == (items@[k], k + 1 == items@.len()),
{
    let n = items.len();
    let mut src = items;
    let mut rev: Vec<T> = Vec::new();
    while src.len() > 0
        invariant
            n == items@.len(),
            src@ == items@.subrange(0, src@.len() as int),
            rev@.len() + src@.len() == n,
            forall|k: int| 0 <= k < rev@.len() ==> #[trigger] rev@[k] == items@[n - 1 - k],
        decreases src@.len(),
    {
        match src.pop() {
            Some(x) => rev.push(x),
            None => {},
        }
    }
    let mut out: Vec<(T, bool)> = Vec::new();
    while rev.len() > 0
        invariant
            n == items@.len(),
            out@.len() + rev@.len() == n,
            forall|k: int| 0 <= k < rev@.len() ==> #[trigger] rev@[k] == items@[n - 1 - k],
            forall|k: int| 0 <= k < out@.len() ==> #[trigger] out@[k] == (items@[k], k + 1 == n),
        decreases rev@.len(),
    {
        let ghost before = rev@;
        match rev.pop() {
            Some(x) => {
                assert(x == items@[n - 1 - (before.len() - 1)]);
                let last = out.len() + 1 == n;
                out.push((x, last));
            },
            None => {},
        }
    }
    out
}

} // verus!
