//! Rule configuration and the framework version it is gated on.

use vstd::prelude::*;
use vstd::string::{StrSliceExecFns, StringExecFns};

verus! {

/// The decoded option values the rule honors. Immutable for the lifetime of
/// one lint run.
#[derive(Debug, Clone)]
pub struct RuleConfig {
    /// When true, a component whose name a transpiler could infer is accepted
    /// without an explicit display name.
    pub ignore_transpiler_name: bool,
    /// When true, context-factory results are also checked for a later
    /// display-name assignment.
    pub check_context_objects: bool,
    /// Bare callee names treated as higher-order component wrappers, in
    /// addition to the built-in memoization and ref-forwarding wrappers.
    pub component_wrapper_functions: Vec<String>,
    /// An extra callee name recognized as the class factory.
    pub create_class_alias: Option<String>,
    /// The framework namespace components are constructed under; `"React"`
    /// when absent.
    pub pragma: Option<String>,
}

impl Default for RuleConfig {
    /// All switches off, no extra wrapper names, no alias, default pragma.
    fn default() -> (r: Self)
        ensures
            !r.ignore_transpiler_name,
            !r.check_context_objects,
            r.component_wrapper_functions@.len() == 0,
            r.create_class_alias is None,
            r.pragma is None,
    {
        RuleConfig {
            ignore_transpiler_name: false,
            check_context_objects: false,
            component_wrapper_functions: Vec::new(),
            create_class_alias: None,
            pragma: None,
        }
    }
}

/// The effective pragma: the configured one, or `"React"` when none is set.
pub open spec fn spec_pragma(c: RuleConfig) -> Seq<char> {
    match c.pragma {
        Some(p) => p@,
        None => "React"@,
    }
}

/// The dotted name `<base>.<prop>`.
pub open spec fn dotted(base: Seq<char>, prop: Seq<char>) -> Seq<char> {
    base + "."@ + prop
}

/// The effective pragma as an owned string.
pub fn pragma_string(c: &RuleConfig) -> (r: String)
    ensures
        r@ == spec_pragma(*c),
{
    match &c.pragma {
        Some(p) => p.clone(),
        None => "React".to_owned(),
    }
}

/// Builds the dotted name `<base>.<prop>`.
pub fn dotted_string(base: &str, prop: &str) -> (r: String)
    ensures
        r@ == dotted(base@, prop@),
{
    base.to_owned().concat(".").concat(prop)
}

/// A semantic version from the project's build metadata.
#[derive(Debug, Clone, Copy, PartialEq, Eq, Structural)]
pub struct Version {
    pub major: u64,
    pub minor: u64,
    pub patch: u64,
}

/// Lexicographic order of a version against the bound `ma.mi.pa`.
pub open spec fn version_before(v: Version, ma: u64, mi: u64, pa: u64) -> bool {
    v.major < ma || (v.major == ma && (v.minor < mi || (v.minor == mi && v.patch < pa)))
}

impl Version {
    /// Whether this version is strictly below `ma.mi.pa`.
    pub fn is_before(&self, ma: u64, mi: u64, pa: u64) -> (r: bool)
        ensures
            r == version_before(*self, ma, mi, pa),
    {
        self.major < ma
            || (self.major == ma
                && (self.minor < mi || (self.minor == mi && self.patch < pa)))
    }
}

/// Whether `c` is a decimal digit.
pub open spec fn is_digit_char(c: char) -> bool {
    48 <= c as u32 <= 57
}

/// The value of a decimal digit.
pub open spec fn digit_val(c: char) -> nat {
    (c as u32 - 48) as nat
}

/// Whether every character of `s` is a decimal digit.
pub open spec fn all_digits(s: Seq<char>) -> bool {
    forall|i: int| 0 <= i < s.len() ==> #[trigger] is_digit_char(s[i])
}

/// The number a run of decimal digits denotes.
pub open spec fn digits_value(s: Seq<char>) -> nat
    decreases s.len(),
{
    if s.len() == 0 {
        0
    } else {
        digits_value(s.drop_last()) * 10 + digit_val(s.last())
    }
}

/// Whether dots at `i` and `j` split `s` into three nonempty runs of digits
/// whose values fit the version fields.
pub open spec fn version_shape(s: Seq<char>, i: int, j: int) -> bool {
    &&& 1 <= i
    &&& i + 2 <= j
    &&& j + 2 <= s.len()
    &&& s[i] == '.'
    &&& s[j] == '.'
    &&& forall|k: int| 0 <= k < s.len() && #[trigger] s[k] == '.' ==> k == i || k == j
    &&& all_digits(s.subrange(0, i))
    &&& all_digits(s.subrange(i + 1, j))
    &&& all_digits(s.subrange(j + 1, s.len() as int))
    &&& digits_value(s.subrange(0, i)) <= u64::MAX
    &&& digits_value(s.subrange(i + 1, j)) <= u64::MAX
    &&& digits_value(s.subrange(j + 1, s.len() as int)) <= u64::MAX
}

/// The version a metadata string denotes: defined when exactly two dots
/// split it into three nonempty runs of digits whose values fit the fields.
/// Everything else — a range marker, a prerelease tag, an oversized
/// component — denotes no version, and version-gated behavior then treats
/// the version as unknown.
pub open spec fn spec_parse_version(s: Seq<char>) -> Option<Version> {
    if exists|i: int, j: int| version_shape(s, i, j) {
        let (i, j) = choose|i: int, j: int| version_shape(s, i, j);
        Some(
            Version {
                major: digits_value(s.subrange(0, i)) as u64,
                minor: digits_value(s.subrange(i + 1, j)) as u64,
                patch: digits_value(s.subrange(j + 1, s.len() as int)) as u64,
            },
        )
    } else {
        None
    }
}

/// A digit run's value only grows as digits are appended.
proof fn lemma_digits_value_prefix(s: Seq<char>, m: int)
    requires
        0 <= m <= s.len(),
    ensures
        digits_value(s.subrange(0, m)) <= digits_value(s),
    decreases s.len(),
{
    if m < s.len() {
        let p = s.drop_last();
        assert(s.subrange(0, m) =~= p.subrange(0, m));
        lemma_digits_value_prefix(p, m);
    } else {
        assert(s.subrange(0, m) =~= s);
    }
}

/// Whether every character of `s` between `from` and `to` is a digit.
#[verifier::loop_isolation(false)]
fn check_digits(s: &str, from: usize, to: usize) -> (r: bool)
    requires
        from <= to <= s@.len(),
    ensures
        r == all_digits(s@.subrange(from as int, to as int)),
{
    let ghost sub = s@.subrange(from as int, to as int);
    let mut k: usize = from;
    while k < to
        invariant
            from <= k <= to,
            forall|m: int| from <= m < k ==> #[trigger] is_digit_char(s@[m]),
        decreases to - k,
    {
        let c = s.get_char(k);
        let cu = c as u32;
        if cu < 48 || cu > 57 {
            proof {
                assert(sub[k - from] == s@[k as int]);
                assert(!is_digit_char(sub[k - from]));
            }
            return false;
        }
        k += 1;
    }
    proof {
        assert forall|ii: int| 0 <= ii < sub.len() implies #[trigger] is_digit_char(
            sub[ii],
        ) by {
            assert(sub[ii] == s@[from + ii]);
        }
    }
    true
}

/// The value of the digit run between `from` and `to`, when it fits.
#[verifier::loop_isolation(false)]
fn digits_to_u64(s: &str, from: usize, to: usize) -> (r: Option<u64>)
    requires
        from <= to <= s@.len(),
        all_digits(s@.subrange(from as int, to as int)),
    ensures
        r matches Some(v) ==> digits_value(s@.subrange(from as int, to as int)) == v,
        r is None ==> digits_value(s@.subrange(from as int, to as int)) > u64::MAX,
{
    let ghost sub = s@.subrange(from as int, to as int);
    let mut acc: u64 = 0;
    let mut k: usize = from;
    while k < to
        invariant
            from <= k <= to,
            acc as nat == digits_value(s@.subrange(from as int, k as int)),
        decreases to - k,
    {
        let c = s.get_char(k);
        proof {
            assert(sub[k - from] == s@[k as int]);
            assert(is_digit_char(sub[k - from]));
        }
        let cu = c as u32;
        let d: u64 = (cu - 48) as u64;
        let ghost prev = s@.subrange(from as int, k as int);
        let ghost cur = s@.subrange(from as int, k as int + 1);
        proof {
            assert(cur.drop_last() =~= prev);
            assert(cur.last() == s@[k as int]);
            assert(digits_value(cur) == digits_value(prev) * 10 + digit_val(s@[k as int]));
        }
        if acc > (u64::MAX - d) / 10 {
            proof {
                assert(acc as nat * 10 + d as nat > u64::MAX as nat);
                lemma_digits_value_prefix(sub, k as int + 1 - from);
                assert(sub.subrange(0, k as int + 1 - from) =~= cur);
            }
            return None;
        }
        acc = acc * 10 + d;
        k += 1;
    }
    proof {
        assert(s@.subrange(from as int, k as int) =~= sub);
    }
    Some(acc)
}

/// Parses a framework-version string from project metadata. A malformed
/// string — anything but three dot-separated runs of digits whose values fit
/// the fields — yields nothing.
#[verifier::loop_isolation(false)]
pub fn parse_version(s: &str) -> (r: Option<Version>)
    ensures
        r == spec_parse_version(s@),
{
    let n = s.unicode_len();
    let mut d1: usize = 0;
    let mut d2: usize = 0;
    let mut count: usize = 0;
    let mut i: usize = 0;
    while i < n
        invariant
            0 <= i <= n,
            count <= 2,
            count == 0 ==> forall|k: int| 0 <= k < i ==> #[trigger] s@[k] != '.',
            count >= 1 ==> d1 < i && s@[d1 as int] == '.',
            count == 1 ==> forall|k: int|
                0 <= k < i && #[trigger] s@[k] == '.' ==> k == d1,
            count == 2 ==> d1 < d2 < i && s@[d2 as int] == '.',
            count == 2 ==> forall|k: int|
                0 <= k < i && #[trigger] s@[k] == '.' ==> k == d1 || k == d2,
        decreases n - i,
    {
        let c = s.get_char(i);
        if c as u32 == 46 {
            proof {
                assert(s@[i as int] == '.');
            }
            if count == 0 {
                d1 = i;
                count = 1;
            } else if count == 1 {
                d2 = i;
                count = 2;
            } else {
                // a third dot: no pair of positions can satisfy the shape
                proof {
                    assert forall|a: int, b: int| !version_shape(s@, a, b) by {
                        if version_shape(s@, a, b) {
                            assert(s@[d1 as int] == '.');
                            assert(s@[d2 as int] == '.');
                            assert(s@[i as int] == '.');
                        }
                    }
                }
                return None;
            }
        } else {
            proof {
                assert(s@[i as int] != '.');
            }
        }
        i += 1;
    }
    if count != 2 {
        proof {
            assert forall|a: int, b: int| !version_shape(s@, a, b) by {
                if version_shape(s@, a, b) {
                    assert(s@[a] == '.');
                    assert(s@[b] == '.');
                }
            }
        }
        return None;
    }
    // the shape can only hold at the two dots found
    proof {
        assert forall|a: int, b: int| version_shape(s@, a, b) implies a == d1 && b == d2 by {
            assert(s@[a] == '.');
            assert(s@[b] == '.');
        }
    }
    if !(1 <= d1 && d2 - d1 >= 2 && n - d2 >= 2) {
        return None;
    }
    if !check_digits(s, 0, d1) {
        return None;
    }
    if !check_digits(s, d1 + 1, d2) {
        return None;
    }
    if !check_digits(s, d2 + 1, n) {
        return None;
    }
    let major = match digits_to_u64(s, 0, d1) {
        Some(v) => v,
        None => {
            return None;
        },
    };
    let minor = match digits_to_u64(s, d1 + 1, d2) {
        Some(v) => v,
        None => {
            return None;
        },
    };
    let patch = match digits_to_u64(s, d2 + 1, n) {
        Some(v) => v,
        None => {
            return None;
        },
    };
    proof {
        assert(version_shape(s@, d1 as int, d2 as int));
    }
    Some(Version { major, minor, patch })
}

} // verus!
