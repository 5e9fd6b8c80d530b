//! Semantic-version arithmetic: parsing a `major.minor.patch` string with an
//! optional leading `v` and an optional `-SNAPSHOT` or `.RELEASE` qualifier,
//! bumping components, and rendering versions back to strings.

use vstd::prelude::*;
use vstd::string::*;
use vstd::arithmetic::div_mod::lemma_fundamental_div_mod;

use crate::util::{
    match_at, spec_find, spec_ends_with, lemma_first_match_is_match, find_str, ends_with_str,
    substring_copy,
};

verus! {

/// The qualifier tag carried by a version string: none, `-SNAPSHOT`
/// (in progress), or `.RELEASE` (shipped).
#[derive(Clone, Copy, Debug, PartialEq, Eq, Structural)]
pub enum Qualifier {
    Plain,
    Snapshot,
    Release,
}

/// A semantic version: three non-negative components and a qualifier.
#[derive(Clone, Copy, Debug, PartialEq, Eq, Structural)]
pub struct Version {
    pub major: u64,
    pub minor: u64,
    pub patch: u64,
    pub qualifier: Qualifier,
}

/// Why a version string could not be parsed; the index names the offending
/// dot-separated component, counted from zero.
#[derive(Clone, Copy, Debug, PartialEq, Eq, Structural)]
pub enum ParseVersionError {
    Empty,
    WrongComponentCount,
    NonNumericComponent { index: usize },
    ComponentTooLarge { index: usize },
}

pub open spec fn is_digit(c: char) -> bool {
    48 <= c as int <= 57
}

pub open spec fn digit_val(c: char) -> int {
    c as int - 48
}

pub open spec fn all_digits(s: Seq<char>) -> bool {
    forall|i: int| 0 <= i < s.len() ==> is_digit(#[trigger] s[i])
}

/// A usable numeric component: non-empty and all digits.
pub open spec fn component_ok(s: Seq<char>) -> bool {
    s.len() > 0 && all_digits(s)
}

/// The numeric value of a digit string, most significant digit first.
pub open spec fn seq_val(s: Seq<char>) -> int
    decreases s.len(),
{
    if s.len() == 0 {
        0
    } else {
        seq_val(s.drop_last()) * 10 + digit_val(s.last())
    }
}

pub open spec fn digit_char(d: int) -> char {
    if d == 0 {
        '0'
    } else if d == 1 {
        '1'
    } else if d == 2 {
        '2'
    } else if d == 3 {
        '3'
    } else if d == 4 {
        '4'
    } else if d == 5 {
        '5'
    } else if d == 6 {
        '6'
    } else if d == 7 {
        '7'
    } else if d == 8 {
        '8'
    } else {
        '9'
    }
}

/// The decimal rendering of a non-negative number.
pub open spec fn nat_digits(n: int) -> Seq<char>
    decreases n,
{
    if n < 10 {
        seq![digit_char(n)]
    } else {
        nat_digits(n / 10).push(digit_char(n % 10))
    }
}

/// A digit string has a non-negative value.
pub proof fn lemma_seq_val_nonneg(s: Seq<char>)
    requires
        all_digits(s),
    ensures
        seq_val(s) >= 0,
    decreases s.len(),
{
    if s.len() > 0 {
        assert(all_digits(s.drop_last())) by {
            assert(forall|i: int|
                0 <= i < s.len() - 1 ==> s.drop_last()[i] == #[trigger] s[i]);
        }
        lemma_seq_val_nonneg(s.drop_last());
        assert(is_digit(s.last()));
    }
}

/// Appending one digit multiplies the value by ten and adds the digit.
pub proof fn lemma_seq_val_push(s: Seq<char>, c: char)
    ensures
        seq_val(s.push(c)) == seq_val(s) * 10 + digit_val(c),
{
    assert(s.push(c).drop_last() =~= s);
    assert(s.push(c).last() == c);
}

/// The value of a prefix of a digit string never exceeds the whole value.
pub proof fn lemma_seq_val_prefix_le(s: Seq<char>, i: int)
    requires
        all_digits(s),
        0 <= i <= s.len(),
    ensures
        seq_val(s.take(i)) <= seq_val(s),
    decreases s.len() - i,
{
    if i == s.len() {
        assert(s.take(i) =~= s);
    } else {
        assert(s.take(i + 1) =~= s.take(i).push(s[i]));
        lemma_seq_val_push(s.take(i), s[i]);
        assert(all_digits(s.take(i))) by {
            assert(forall|k: int| 0 <= k < i ==> s.take(i)[k] == #[trigger] s[k]);
        }
        lemma_seq_val_nonneg(s.take(i));
        assert(is_digit(s[i]));
        assert(seq_val(s.take(i)) <= seq_val(s.take(i + 1)));
        lemma_seq_val_prefix_le(s, i + 1);
    }
}

/// Rendering a non-negative number gives a non-empty digit string whose
/// value is the number again.
pub proof fn lemma_nat_digits_val(n: int)
    requires
        n >= 0,
    ensures
        nat_digits(n).len() >= 1,
        all_digits(nat_digits(n)),
        seq_val(nat_digits(n)) == n,
    decreases n,
{
    if n < 10 {
        assert(is_digit(digit_char(n)));
        assert(digit_val(digit_char(n)) == n);
        assert(nat_digits(n) =~= seq![digit_char(n)]);
        assert(nat_digits(n).drop_last() =~= Seq::<char>::empty());
        assert(seq_val(Seq::<char>::empty()) == 0);
        assert(nat_digits(n).last() == digit_char(n));
        assert(seq_val(nat_digits(n)) == seq_val(Seq::<char>::empty()) * 10 + digit_val(
            digit_char(n),
        ));
    } else {
        lemma_fundamental_div_mod(n, 10);
        lemma_nat_digits_val(n / 10);
        lemma_seq_val_push(nat_digits(n / 10), digit_char(n % 10));
        assert(is_digit(digit_char(n % 10)));
        assert(digit_val(digit_char(n % 10)) == n % 10);
        assert(all_digits(nat_digits(n))) by {
            let d = nat_digits(n / 10);
            let w = d.push(digit_char(n % 10));
            assert(forall|i: int| 0 <= i < d.len() ==> w[i] == #[trigger] d[i]);
            assert(w[d.len() as int] == digit_char(n % 10));
            assert(nat_digits(n) == w);
        }
    }
}

/// In `a + "." + t` with `a` all digits, the first dot sits right after `a`,
/// and the split around it recovers `a` and `t`.
proof fn lemma_split_at_dot(a: Seq<char>, t: Seq<char>)
    requires
        all_digits(a),
    ensures
        spec_find(a + "."@ + t, "."@) == Some(a.len() as int),
        (a + "."@ + t).take(a.len() as int) =~= a,
        (a + "."@ + t).subrange(a.len() as int + 1, (a + "."@ + t).len() as int) =~= t,
{
    reveal_strlit(".");
    let s = a + "."@ + t;
    assert(s.len() == a.len() + 1 + t.len());
    assert(match_at(s, "."@, a.len() as int)) by {
        assert(s.subrange(a.len() as int, a.len() as int + 1) =~= "."@);
    }
    assert forall|j: int| 0 <= j < a.len() implies !match_at(s, "."@, j) by {
        if match_at(s, "."@, j) {
            assert(s.subrange(j, j + 1)[0] == s[j]);
            assert(s[j] == a[j]);
            assert(is_digit(a[j]));
        }
    }
    crate::util::lemma_first_match_found(s, "."@, 0, a.len() as int);
}

/// A pure digit string holds no dot.
proof fn lemma_no_dot_in_digits(c: Seq<char>)
    requires
        all_digits(c),
    ensures
        spec_find(c, "."@) is None,
{
    reveal_strlit(".");
    assert forall|j: int| 0 <= j implies !match_at(c, "."@, j) by {
        if match_at(c, "."@, j) {
            assert(c.subrange(j, j + 1)[0] == c[j]);
            assert(is_digit(c[j]));
        }
    }
    crate::util::lemma_first_match_none(c, "."@, 0);
}

/// Rendering a version and parsing it back, behind a leading `v`, recovers
/// the version exactly: the numeric triple and the qualifier survive the
/// round trip. For a snapshot version this is the round trip of the
/// canonical `v<major>.<minor>.<patch>-SNAPSHOT` form.
pub proof fn lemma_version_string_round_trip(v: Version)
    ensures
        parse_spec(seq!['v'] + spec_version_string(v)) == Ok::<Version, ParseVersionError>(v),
{
    reveal_strlit("-SNAPSHOT");
    reveal_strlit(".RELEASE");
    reveal_strlit(".");
    let a = nat_digits(v.major as int);
    let b = nat_digits(v.minor as int);
    let c = nat_digits(v.patch as int);
    lemma_nat_digits_val(v.major as int);
    lemma_nat_digits_val(v.minor as int);
    lemma_nat_digits_val(v.patch as int);
    let num = spec_version_number(v);
    let full = spec_version_string(v);
    let raw = seq!['v'] + full;
    assert(num.len() == a.len() + 1 + b.len() + 1 + c.len());
    assert(num[num.len() - 1] == c[c.len() - 1]);
    assert(is_digit(num[num.len() - 1]));
    // the leading `v` is stripped
    assert(raw.len() > 0);
    assert(raw[0] == 'v');
    let stripped = spec_strip_v(raw);
    assert(stripped =~= full);
    // the qualifier is recognised
    match v.qualifier {
        Qualifier::Snapshot => {
            assert(full =~= num + "-SNAPSHOT"@);
            assert(spec_ends_with(full, "-SNAPSHOT"@)) by {
                assert(full.subrange(full.len() - 9, full.len() as int) =~= "-SNAPSHOT"@);
            }
            assert(spec_qualifier_of(full) == Qualifier::Snapshot);
            assert(spec_unqualified(full) =~= num);
        },
        Qualifier::Release => {
            assert(full =~= num + ".RELEASE"@);
            assert(!spec_ends_with(full, "-SNAPSHOT"@)) by {
                if spec_ends_with(full, "-SNAPSHOT"@) {
                    assert(full.subrange(full.len() - 9, full.len() as int)[0] == full[full.len()
                        - 9]);
                    assert(full[num.len() - 1] == num[num.len() - 1]);
                }
            }
            assert(spec_ends_with(full, ".RELEASE"@)) by {
                assert(full.subrange(full.len() - 8, full.len() as int) =~= ".RELEASE"@);
            }
            assert(spec_qualifier_of(full) == Qualifier::Release);
            assert(spec_unqualified(full) =~= num);
        },
        Qualifier::Plain => {
            assert(full =~= num);
            assert(!spec_ends_with(full, "-SNAPSHOT"@)) by {
                if spec_ends_with(full, "-SNAPSHOT"@) {
                    assert(full.subrange(full.len() - 9, full.len() as int)[8] == full[full.len()
                        - 1]);
                }
            }
            assert(!spec_ends_with(full, ".RELEASE"@)) by {
                if spec_ends_with(full, ".RELEASE"@) {
                    assert(full.subrange(full.len() - 8, full.len() as int)[7] == full[full.len()
                        - 1]);
                }
            }
            assert(spec_qualifier_of(full) == Qualifier::Plain);
            assert(spec_unqualified(full) == num);
        },
    }
    let body = spec_unqualified(stripped);
    assert(body == num);
    // the three components come back apart
    assert(num =~= a + "."@ + (b + "."@ + c));
    lemma_split_at_dot(a, b + "."@ + c);
    let rest = num.subrange(a.len() as int + 1, num.len() as int);
    assert(rest =~= b + "."@ + c);
    lemma_split_at_dot(b, c);
    assert(rest.subrange(b.len() as int + 1, rest.len() as int) =~= c);
    lemma_no_dot_in_digits(c);
    assert(spec_components(num) == Some((a, b, c)));
    // and each component evaluates to the number it renders
    assert(seq_val(a) == v.major as int);
    assert(seq_val(b) == v.minor as int);
    assert(seq_val(c) == v.patch as int);
    assert(parse_spec(raw) == Ok::<Version, ParseVersionError>(
        Version { major: v.major, minor: v.minor, patch: v.patch, qualifier: v.qualifier },
    ));
}

/// The exec counterpart of `digit_char`.
fn digit_to_str(d: u64) -> (r: &'static str)
    requires
        d < 10,
    ensures
        r@ == seq![digit_char(d as int)],
{
    proof {
        reveal_strlit("0");
        reveal_strlit("1");
        reveal_strlit("2");
        reveal_strlit("3");
        reveal_strlit("4");
        reveal_strlit("5");
        reveal_strlit("6");
        reveal_strlit("7");
        reveal_strlit("8");
        reveal_strlit("9");
    }
    let r = if d == 0 {
        "0"
    } else if d == 1 {
        "1"
    } else if d == 2 {
        "2"
    } else if d == 3 {
        "3"
    } else if d == 4 {
        "4"
    } else if d == 5 {
        "5"
    } else if d == 6 {
        "6"
    } else if d == 7 {
        "7"
    } else if d == 8 {
        "8"
    } else {
        "9"
    };
    proof {
        assert(r@ =~= seq![digit_char(d as int)]);
    }
    r
}

/// The decimal rendering of `n`.
pub fn u64_to_string(n: u64) -> (r: String)
    ensures
        r@ == nat_digits(n as int),
    decreases n,
{
    if n < 10 {
        digit_to_str(n).to_owned()
    } else {
        let mut s = u64_to_string(n / 10);
        s.append(digit_to_str(n % 10));
        proof {
            assert(s@ =~= nat_digits((n / 10) as int).push(digit_char((n % 10) as int)));
        }
        s
    }
}

/// Whether `s` is a usable numeric component.
pub fn is_numeric_str(s: &str) -> (r: bool)
    ensures
        r == component_ok(s@),
{
    let n = s.unicode_len();
    if n == 0 {
        return false;
    }
    let mut i: usize = 0;
    while i < n
        invariant
            n == s@.len(),
            i <= n,
            forall|k: int| 0 <= k < i ==> is_digit(#[trigger] s@[k]),
        decreases n - i,
    {
        let c = s.get_char(i);
        let u = c as u32;
        if u < 48 || u > 57 {
            proof {
                assert(!is_digit(s@[i as int]));
            }
            return false;
        }
        i += 1;
    }
    true
}

/// The numeric value of a digit string, or `None` when it exceeds `u64`.
pub fn parse_number(s: &str) -> (r: Option<u64>)
    requires
        component_ok(s@),
    ensures
        match r {
            Some(v) => seq_val(s@) == v as int,
            None => seq_val(s@) > u64::MAX as int,
        },
{
    let n = s.unicode_len();
    let mut acc: u64 = 0;
    let mut i: usize = 0;
    proof {
        assert(s@.take(0) =~= Seq::<char>::empty());
    }
    while i < n
        invariant
            component_ok(s@),
            n == s@.len(),
            i <= n,
            acc as int == seq_val(s@.take(i as int)),
        decreases n - i,
    {
        let c = s.get_char(i);
        proof {
            assert(is_digit(s@[i as int]));
        }
        let d = (c as u32 - 48) as u64;
        if acc > (u64::MAX - d) / 10 {
            proof {
                lemma_fundamental_div_mod((u64::MAX - d) as int, 10);
                assert(s@.take(i + 1) =~= s@.take(i as int).push(s@[i as int]));
                lemma_seq_val_push(s@.take(i as int), s@[i as int]);
                assert(seq_val(s@.take(i + 1)) > u64::MAX as int);
                lemma_seq_val_prefix_le(s@, i + 1);
            }
            return None;
        }
        proof {
            lemma_fundamental_div_mod((u64::MAX - d) as int, 10);
            assert(acc * 10 + d <= u64::MAX as int);
            assert(s@.take(i + 1) =~= s@.take(i as int).push(s@[i as int]));
            lemma_seq_val_push(s@.take(i as int), s@[i as int]);
        }
        acc = acc * 10 + d;
        i += 1;
    }
    proof {
        assert(s@.take(n as int) =~= s@);
    }
    Some(acc)
}

/// The rendering of the three numeric components, `major.minor.patch`.
pub open spec fn spec_version_number(v: Version) -> Seq<char> {
    nat_digits(v.major as int) + "."@ + nat_digits(v.minor as int) + "."@ + nat_digits(
        v.patch as int,
    )
}

/// The suffix a qualifier adds to the rendering.
pub open spec fn spec_qualifier_suffix(q: Qualifier) -> Seq<char> {
    match q {
        Qualifier::Plain => Seq::<char>::empty(),
        Qualifier::Snapshot => "-SNAPSHOT"@,
        Qualifier::Release => ".RELEASE"@,
    }
}

/// The full rendering of a version.
pub open spec fn spec_version_string(v: Version) -> Seq<char> {
    spec_version_number(v) + spec_qualifier_suffix(v.qualifier)
}

/// The rendering with the `.RELEASE` qualifier, whatever the version held.
pub open spec fn spec_release_string(v: Version) -> Seq<char> {
    spec_version_number(v) + ".RELEASE"@
}

/// A leading `v` is dropped when present.
pub open spec fn spec_strip_v(s: Seq<char>) -> Seq<char> {
    if s.len() > 0 && s[0] == 'v' {
        s.subrange(1, s.len() as int)
    } else {
        s
    }
}

/// The qualifier a (already `v`-stripped) version string carries.
pub open spec fn spec_qualifier_of(s: Seq<char>) -> Qualifier {
    if spec_ends_with(s, "-SNAPSHOT"@) {
        Qualifier::Snapshot
    } else if spec_ends_with(s, ".RELEASE"@) {
        Qualifier::Release
    } else {
        Qualifier::Plain
    }
}

/// The string with its qualifier suffix removed.
pub open spec fn spec_unqualified(s: Seq<char>) -> Seq<char> {
    match spec_qualifier_of(s) {
        Qualifier::Snapshot => s.take(s.len() - "-SNAPSHOT"@.len()),
        Qualifier::Release => s.take(s.len() - ".RELEASE"@.len()),
        Qualifier::Plain => s,
    }
}

/// The three dot-separated components of `body`, or `None` unless there are
/// exactly three.
pub open spec fn spec_components(body: Seq<char>) -> Option<(Seq<char>, Seq<char>, Seq<char>)> {
    match spec_find(body, "."@) {
        Some(i) => {
            let rest = body.subrange(i + 1, body.len() as int);
            match spec_find(rest, "."@) {
                Some(k) => {
                    let c = rest.subrange(k + 1, rest.len() as int);
                    if spec_find(c, "."@) is Some {
                        None
                    } else {
                        Some((body.take(i), rest.take(k), c))
                    }
                },
                None => None,
            }
        },
        None => None,
    }
}

/// What `Version::parse` returns, for every input.
pub open spec fn parse_spec(raw: Seq<char>) -> Result<Version, ParseVersionError> {
    if raw.len() == 0 {
        Err(ParseVersionError::Empty)
    } else {
        let stripped = spec_strip_v(raw);
        let q = spec_qualifier_of(stripped);
        let body = spec_unqualified(stripped);
        match spec_components(body) {
            None => Err(ParseVersionError::WrongComponentCount),
            Some(parts) => {
                let (a, b, c) = parts;
                if !component_ok(a) {
                    Err(ParseVersionError::NonNumericComponent { index: 0 })
                } else if seq_val(a) > u64::MAX as int {
                    Err(ParseVersionError::ComponentTooLarge { index: 0 })
                } else if !component_ok(b) {
                    Err(ParseVersionError::NonNumericComponent { index: 1 })
                } else if seq_val(b) > u64::MAX as int {
                    Err(ParseVersionError::ComponentTooLarge { index: 1 })
                } else if !component_ok(c) {
                    Err(ParseVersionError::NonNumericComponent { index: 2 })
                } else if seq_val(c) > u64::MAX as int {
                    Err(ParseVersionError::ComponentTooLarge { index: 2 })
                } else {
                    Ok(
                        Version {
                            major: seq_val(a) as u64,
                            minor: seq_val(b) as u64,
                            patch: seq_val(c) as u64,
                            qualifier: q,
                        },
                    )
                }
            },
        }
    }
}

impl Version {
    /// Parse a raw version string: an optional leading `v`, then three
    /// dot-separated numeric components, then an optional `-SNAPSHOT` or
    /// `.RELEASE` qualifier.
    pub fn parse(raw: &str) -> (r: Result<Version, ParseVersionError>)
        ensures
            r == parse_spec(raw@),
    {
        let n = raw.unicode_len();
        if n == 0 {
            return Err(ParseVersionError::Empty);
        }
        let stripped: String = if raw.get_char(0) == 'v' {
            substring_copy(raw, 1, n)
        } else {
            raw.to_owned()
        };
        proof {
            assert(stripped@ == spec_strip_v(raw@));
        }
        let sn = stripped.as_str().unicode_len();
        let mut q = Qualifier::Plain;
        let mut body: String = stripped.clone();
        if ends_with_str(stripped.as_str(), "-SNAPSHOT") {
            let sl = "-SNAPSHOT".unicode_len();
            q = Qualifier::Snapshot;
            body = substring_copy(stripped.as_str(), 0, sn - sl);
        } else if ends_with_str(stripped.as_str(), ".RELEASE") {
            let sl = ".RELEASE".unicode_len();
            q = Qualifier::Release;
            body = substring_copy(stripped.as_str(), 0, sn - sl);
        }
        proof {
            assert(q == spec_qualifier_of(stripped@));
            assert(body@ =~= spec_unqualified(stripped@));
        }
        let bn = body.as_str().unicode_len();
        let i = match find_str(body.as_str(), ".") {
            Some(i) => i,
            None => {
                return Err(ParseVersionError::WrongComponentCount);
            },
        };
        proof {
            reveal_strlit(".");
            lemma_first_match_is_match(body@, "."@, 0);
        }
        let a = substring_copy(body.as_str(), 0, i);
        let rest = substring_copy(body.as_str(), i + 1, bn);
        let rn = rest.as_str().unicode_len();
        let k = match find_str(rest.as_str(), ".") {
            Some(k) => k,
            None => {
                return Err(ParseVersionError::WrongComponentCount);
            },
        };
        proof {
            lemma_first_match_is_match(rest@, "."@, 0);
        }
        let b = substring_copy(rest.as_str(), 0, k);
        let c = substring_copy(rest.as_str(), k + 1, rn);
        match find_str(c.as_str(), ".") {
            Some(_) => {
                return Err(ParseVersionError::WrongComponentCount);
            },
            None => {},
        }
        proof {
            assert(a@ =~= body@.take(i as int));
            assert(b@ =~= body@.subrange(i + 1, bn as int).take(k as int));
        }
        if !is_numeric_str(a.as_str()) {
            return Err(ParseVersionError::NonNumericComponent { index: 0 });
        }
        let major = match parse_number(a.as_str()) {
            Some(v) => v,
            None => {
                return Err(ParseVersionError::ComponentTooLarge { index: 0 });
            },
        };
        if !is_numeric_str(b.as_str()) {
            return Err(ParseVersionError::NonNumericComponent { index: 1 });
        }
        let minor = match parse_number(b.as_str()) {
            Some(v) => v,
            None => {
                return Err(ParseVersionError::ComponentTooLarge { index: 1 });
            },
        };
        if !is_numeric_str(c.as_str()) {
            return Err(ParseVersionError::NonNumericComponent { index: 2 });
        }
        let patch = match parse_number(c.as_str()) {
            Some(v) => v,
            None => {
                return Err(ParseVersionError::ComponentTooLarge { index: 2 });
            },
        };
        Ok(Version { major, minor, patch, qualifier: q })
    }

    /// A copy with the patch component one higher.
    pub fn bump_patch(&self) -> (r: Version)
        requires
            self.patch < u64::MAX,
        ensures
            r.major == self.major,
            r.minor == self.minor,
            r.patch == self.patch + 1,
            r.qualifier == self.qualifier,
    {
        Version { patch: self.patch + 1, ..*self }
    }

    /// A copy with the minor component one higher and the patch reset to 0.
    pub fn bump_minor_reset_patch(&self) -> (r: Version)
        requires
            self.minor < u64::MAX,
        ensures
            r.major == self.major,
            r.minor == self.minor + 1,
            r.patch == 0,
            r.qualifier == self.qualifier,
    {
        Version { minor: self.minor + 1, patch: 0, ..*self }
    }

    /// The next feature line after a hotfix: minor one higher, patch reset
    /// to 0, and the snapshot qualifier.
    pub fn bump_minor(&self) -> (r: Version)
        requires
            self.minor < u64::MAX,
        ensures
            r.major == self.major,
            r.minor == self.minor + 1,
            r.patch == 0,
            r.qualifier == Qualifier::Snapshot,
    {
        Version { minor: self.minor + 1, patch: 0, qualifier: Qualifier::Snapshot, ..*self }
    }

    /// A copy with the qualifier replaced.
    pub fn with_qualifier(&self, q: Qualifier) -> (r: Version)
        ensures
            r.major == self.major,
            r.minor == self.minor,
            r.patch == self.patch,
            r.qualifier == q,
    {
        Version { qualifier: q, ..*self }
    }

    /// The bare `major.minor.patch` rendering, with no qualifier.
    pub fn number_string(&self) -> (r: String)
        ensures
            r@ == spec_version_number(*self),
    {
        let mut s = u64_to_string(self.major);
        s.append(".");
        s.append(u64_to_string(self.minor).as_str());
        s.append(".");
        s.append(u64_to_string(self.patch).as_str());
        s
    }

    /// The full rendering, qualifier included.
    pub fn to_string(&self) -> (r: String)
        ensures
            r@ == spec_version_string(*self),
    {
        let mut s = self.number_string();
        match self.qualifier {
            Qualifier::Plain => {
                proof {
                    assert(s@ =~= spec_version_string(*self));
                }
            },
            Qualifier::Snapshot => {
                s.append("-SNAPSHOT");
            },
            Qualifier::Release => {
                s.append(".RELEASE");
            },
        }
        s
    }

    /// The rendering with the `.RELEASE` qualifier, whatever this version's
    /// own qualifier is.
    pub fn to_release_string(&self) -> (r: String)
        ensures
            r@ == spec_release_string(*self),
    {
        let mut s = self.number_string();
        s.append(".RELEASE");
        s
    }
}

} // verus!
