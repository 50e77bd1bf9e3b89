//! Version resolution: reading the current version out of manifest text and
//! computing the next one under the letter-suffix or the numeric policy.

use vstd::prelude::*;
use vstd::string::StringExecFns;
use crate::decimal::{
    dec_str, dec_val, lemma_dec_str_val, parse_u32, parses_as_u32, strip_plus, u32_digits,
    u32_of_str,
};
use crate::errors::{CustomError, CustomResult};
use crate::strutil::{
    after_last_s, after_last_vec, ascii_letter_check, chars_of, digit_check, is_ascii_letter,
    is_digit, replace_all_s, replacen_vec, string_of, str_eq, succ_char, succ_char_exec, take_vec,
};

verus! {

/// Release channels on which the letter-suffix policy applies.
pub open spec fn is_letter_channel(release: Seq<char>) -> bool {
    release == "5.8_RELEASE"@ || release == "5.9_RELEASE"@ || release == "5.91_RELEASE"@
}

/// The letter-suffix policy: a final letter other than `z` advances to its
/// successor, a final `z` becomes `aa`, and anything else gains an `a`.
pub open spec fn letter_next(s: Seq<char>) -> Seq<char> {
    let last = s[s.len() - 1];
    if is_ascii_letter(last) && last != 'z' {
        s.update(s.len() - 1, succ_char(last))
    } else if last == 'z' {
        s.take(s.len() - 1) + seq!['a', 'a']
    } else {
        s + seq!['a']
    }
}

/// The position of the last ASCII digit in `s`, or -1 when none occurs.
pub open spec fn last_digit_idx(s: Seq<char>) -> int
    decreases s.len(),
{
    if s.len() == 0 {
        -1
    } else if is_digit(s[s.len() - 1]) {
        s.len() - 1
    } else {
        last_digit_idx(s.take(s.len() - 1))
    }
}

/// The numeric policy: when the final dot-separated segment parses as an
/// unsigned integer it is replaced by its successor; otherwise the last
/// digit anywhere in the string is bumped by one code point and everything
/// after it is dropped; a string without digits cannot be advanced.
pub open spec fn digit_next(s: Seq<char>) -> Option<Seq<char>> {
    let seg = after_last_s(s, '.');
    if parses_as_u32(seg) {
        Some(s.take(s.len() - seg.len()) + dec_str((u32_of_str(seg) + 1) as nat))
    } else if last_digit_idx(s) >= 0 {
        let i = last_digit_idx(s);
        Some(s.take(i).push(succ_char(s[i])))
    } else {
        None
    }
}

/// The numeric policy cannot represent the successor of a final segment
/// already at `u32::MAX`.
pub open spec fn numeric_overflow(s: Seq<char>) -> bool {
    parses_as_u32(after_last_s(s, '.')) && u32_of_str(after_last_s(s, '.')) == u32::MAX
}

/// A candidate version read from rendered manifest text: quotes are
/// stripped when the text is quoted, and `null`, the empty string and the
/// placeholder `0.0.0` are not real versions.
pub open spec fn version_candidate(raw: Seq<char>) -> Option<Seq<char>> {
    let unq = if raw.len() > 0 && raw[0] == '"' && raw[raw.len() - 1] == '"' {
        replace_all_s(raw, seq!['"'], Seq::empty())
    } else {
        raw
    };
    if unq == "null"@ || unq.len() == 0 || unq == "0.0.0"@ {
        None
    } else {
        Some(unq)
    }
}

/// The candidate a well-formed manifest text yields: the rendered
/// `version` member, held to [`version_candidate`]; a document without
/// the member yields none, as its rendering would be `null`.
pub open spec fn manifest_candidate(s: Seq<char>) -> Option<Seq<char>> {
    match crate::json::json_version_of(s) {
        Some(raw) => version_candidate(raw),
        None => None,
    }
}

/// Every readable candidate before `i` is well-formed JSON without a
/// real version; unreadable candidates are skipped.
pub open spec fn no_candidate_before(contents: Seq<Option<String>>, i: int) -> bool {
    forall|j: int|
        0 <= j < i ==> ((#[trigger] contents[j]) matches Some(c) ==> (crate::json::json_ok(c@)
            && manifest_candidate(c@) is None))
}

/// Resolution yields `v`: some candidate is readable, well-formed and
/// real with value `v`, and every candidate before it is skipped.
pub open spec fn resolves_to(contents: Seq<Option<String>>, v: Seq<char>) -> bool {
    exists|i: int|
        0 <= i < contents.len() && no_candidate_before(contents, i) && ((#[trigger] contents[i])
            matches Some(c) && crate::json::json_ok(c@) && manifest_candidate(c@) == Some(v))
}

/// Resolution stops on a malformed document: some candidate is readable
/// but not JSON, and every candidate before it is skipped.
pub open spec fn stopped_by_malformed(contents: Seq<Option<String>>) -> bool {
    exists|i: int|
        0 <= i < contents.len() && no_candidate_before(contents, i) && ((#[trigger] contents[i])
            matches Some(c) && !crate::json::json_ok(c@))
}

/// Joining a repository path and a file name with a single separator.
pub open spec fn path_join(repo: Seq<char>, file: Seq<char>) -> Seq<char> {
    if repo.len() == 0 {
        file
    } else if repo[repo.len() - 1] == '/' {
        repo + file
    } else {
        repo + seq!['/'] + file
    }
}

/// Chooses the current and the next version for one repository.
pub struct VersionSelecter {
    /// An explicit override: when present it is used verbatim as the next
    /// version and no increment logic runs. An empty override is rejected
    /// at resolution, so the pair's next version is never empty.
    pub expected_version: Option<String>,
    /// The repository working directory.
    pub repo: String,
    /// The release channel, which selects the increment policy.
    pub release: String,
}

proof fn lemma_last_digit_at(s: Seq<char>, i: int)
    requires
        0 <= i < s.len(),
        is_digit(s[i]),
        forall|m: int| i < m < s.len() ==> !is_digit(#[trigger] s[m]),
    ensures
        last_digit_idx(s) == i,
    decreases s.len(),
{
    if i == s.len() - 1 {
    } else {
        lemma_last_digit_at(s.take(s.len() - 1), i);
    }
}

proof fn lemma_last_digit_none(s: Seq<char>)
    requires
        forall|m: int| 0 <= m < s.len() ==> !is_digit(#[trigger] s[m]),
    ensures
        last_digit_idx(s) == -1,
    decreases s.len(),
{
    if s.len() > 0 {
        lemma_last_digit_none(s.take(s.len() - 1));
    }
}

impl VersionSelecter {
    /// Advances `current_version` under the letter-suffix policy, exactly
    /// as [`letter_next`] describes. The current version is never empty,
    /// since resolution never yields one.
    pub fn get_next_char_version_from_current(&self, current_version: String) -> (r: CustomResult<
        String,
    >)
        requires
            current_version@.len() > 0,
        ensures
            r matches Ok(v) && v@ == letter_next(current_version@) && v@.len() > 0,
    {
        let v = chars_of(current_version.as_str());
        let last = v[v.len() - 1];
        if ascii_letter_check(last) && last != 'z' {
            let mut out = take_vec(&v, v.len() - 1);
            out.push(succ_char_exec(last));
            proof {
                assert(out@ =~= letter_next(v@));
            }
            Ok(string_of(&out))
        } else if last == 'z' {
            let mut out = take_vec(&v, v.len() - 1);
            out.push('a');
            out.push('a');
            proof {
                assert(out@ =~= letter_next(v@));
            }
            Ok(string_of(&out))
        } else {
            let mut out = take_vec(&v, v.len());
            out.push('a');
            proof {
                assert(v@.take(v@.len() as int) =~= v@);
                assert(out@ =~= letter_next(v@));
            }
            Ok(string_of(&out))
        }
    }

    /// Advances `current_version` under the numeric policy, exactly as
    /// [`digit_next`] describes; a version without any digit cannot be
    /// advanced and is reported as a build error.
    pub fn get_next_digit_version_from_current(&self, current_version: String) -> (r: CustomResult<
        String,
    >)
        ensures
            match r {
                Ok(v) => digit_next(current_version@) matches Some(t) && v@ == t && v@.len() > 0
                    && !numeric_overflow(current_version@),
                Err(e) => (digit_next(current_version@) is None || numeric_overflow(
                    current_version@,
                )) && (e matches CustomError::VersionBuild(m) && m@
                    == "Could not get next version"@),
            },
    {
        let v = chars_of(current_version.as_str());
        let seg = after_last_vec(&v, '.');
        proof {
            lemma_after_last_len(v@, seg@);
        }
        match parse_u32(&seg) {
            Some(n) => {
                if n == u32::MAX {
                    // The successor of this segment does not fit in u32.
                    return Err(
                        CustomError::VersionBuild(String::from_str("Could not get next version")),
                    );
                }
                let mut out = take_vec(&v, v.len() - seg.len());
                let digits = u32_digits(n + 1);
                crate::strutil::append_chars(&mut out, &digits);
                Ok(string_of(&out))
            },
            None => {
                let mut j: usize = v.len();
                while j > 0 && !digit_check(v[j - 1])
                    invariant
                        j <= v.len(),
                        forall|m: int| j <= m < v@.len() ==> !is_digit(#[trigger] v@[m]),
                    decreases j,
                {
                    j -= 1;
                }
                if j == 0 {
                    proof {
                        lemma_last_digit_none(v@);
                    }
                    Err(CustomError::VersionBuild(String::from_str("Could not get next version")))
                } else {
                    proof {
                        lemma_last_digit_at(v@, j - 1);
                    }
                    let mut out = take_vec(&v, j - 1);
                    out.push(succ_char_exec(v[j - 1]));
                    Ok(string_of(&out))
                }
            },
        }
    }
}

/// Keeps a rendered manifest value only when it is a real version:
/// quotes are stripped exactly as [`version_candidate`] describes, and
/// `null`, the empty string and the placeholder `0.0.0` are rejected.
pub fn real_version_of(raw: &str) -> (r: Option<String>)
    ensures
        r is Some <==> version_candidate(raw@) is Some,
        r matches Some(v) ==> v@ == version_candidate(raw@)->0,
{
    let v = chars_of(raw);
    let quote = chars_of("\"");
    proof {
        reveal_strlit("\"");
        assert(quote@ =~= seq!['"']);
    }
    let unq: Vec<char> = if v.len() > 0 && v[0] == '"' && v[v.len() - 1] == '"' {
        let empty: Vec<char> = Vec::new();
        replacen_vec(&v, &quote, &empty, v.len())
    } else {
        v
    };
    let null_lit = chars_of("null");
    let placeholder = chars_of("0.0.0");
    if crate::strutil::vec_chars_eq(&unq, &null_lit) || unq.len() == 0
        || crate::strutil::vec_chars_eq(&unq, &placeholder) {
        None
    } else {
        Some(string_of(&unq))
    }
}

impl VersionSelecter {
    /// Reads the current version out of the candidate manifest texts, in
    /// order: an unreadable candidate is skipped, malformed JSON stops
    /// resolution, and the first real version wins — exactly
    /// [`resolves_to`]. When no candidate yields a real version,
    /// resolution fails rather than returning a placeholder.
    pub fn read_version_file(&self, contents: &Vec<Option<String>>) -> (r: CustomResult<String>)
        ensures
            match r {
                Ok(v) => resolves_to(contents@, v@) && v@.len() > 0 && v@ != "null"@ && v@
                    != "0.0.0"@,
                Err(e) => e matches CustomError::VersionBuild(m) && ((m@
                    == "JSON was not well-formatted"@ && stopped_by_malformed(contents@)) || (m@
                    == "Could not get version from any of the files"@ && no_candidate_before(
                    contents@,
                    contents@.len() as int,
                ))),
            },
    {
        let mut i: usize = 0;
        while i < contents.len()
            invariant
                i <= contents.len(),
                no_candidate_before(contents@, i as int),
            decreases contents.len() - i,
        {
            match &contents[i] {
                None => {},
                Some(content) => {
                    match manifest_version(content.as_str()) {
                        Err(e) => {
                            proof {
                                assert(contents@[i as int] matches Some(c) && !crate::json::json_ok(
                                    c@,
                                ));
                            }
                            return Err(e);
                        },
                        Ok(Some(v)) => {
                            proof {
                                assert(contents@[i as int] matches Some(c)
                                    && crate::json::json_ok(c@) && manifest_candidate(c@) == Some(
                                    v@,
                                ));
                            }
                            return Ok(v);
                        },
                        Ok(None) => {},
                    }
                },
            }
            i += 1;
        }
        Err(
            CustomError::VersionBuild(
                String::from_str("Could not get version from any of the files"),
            ),
        )
    }

    /// Resolves the version pair for one repository: the current version
    /// is what [`resolves_to`] names, and the next one is the explicit
    /// override when present, else the current version advanced under the
    /// policy the release channel selects. The next version is never
    /// empty: an empty override is rejected. Success is owed whenever
    /// resolution succeeds, the override is not empty, and the selected
    /// policy can advance.
    pub fn get_version(&self, file_contents: &Vec<Option<String>>) -> (r: CustomResult<
        (String, String),
    >)
        ensures
            match r {
                Ok(p) => ({
                    &&& resolves_to(file_contents@, p.0@)
                    &&& p.0@.len() > 0 && p.0@ != "null"@ && p.0@ != "0.0.0"@
                    &&& p.1@.len() > 0
                    &&& match self.expected_version {
                        Some(e) => p.1@ == e@,
                        None => if is_letter_channel(self.release@) {
                            p.1@ == letter_next(p.0@)
                        } else {
                            (digit_next(p.0@) matches Some(t) && p.1@ == t)
                                && !numeric_overflow(p.0@)
                        },
                    }
                }),
                Err(e) => ({
                    &&& e is VersionBuild
                    &&& ({
                        ||| stopped_by_malformed(file_contents@)
                        ||| no_candidate_before(file_contents@, file_contents@.len() as int)
                        ||| (self.expected_version matches Some(ev) && ev@.len() == 0)
                        ||| (exists|c: Seq<char>|
                            #[trigger] resolves_to(file_contents@, c) && self.expected_version
                                is None && !is_letter_channel(self.release@) && (digit_next(c)
                                is None || numeric_overflow(c)))
                    })
                }),
            },
    {
        let current_version = match self.read_version_file(file_contents) {
            Ok(v) => v,
            Err(e) => {
                return Err(e);
            },
        };
        match &self.expected_version {
            Some(expected_version) => {
                if expected_version.as_str().is_empty() {
                    // The pair's next version must not be empty.
                    return Err(
                        CustomError::VersionBuild(String::from_str("Expected version is empty")),
                    );
                }
                Ok((current_version, expected_version.clone()))
            },
            None => {
                if str_eq(self.release.as_str(), "5.8_RELEASE") || str_eq(
                    self.release.as_str(),
                    "5.9_RELEASE",
                ) || str_eq(self.release.as_str(), "5.91_RELEASE") {
                    let next_version = match self.get_next_char_version_from_current(
                        current_version.clone(),
                    ) {
                        Ok(v) => v,
                        Err(e) => {
                            return Err(e);
                        },
                    };
                    Ok((current_version, next_version))
                } else {
                    let next_version = match self.get_next_digit_version_from_current(
                        current_version.clone(),
                    ) {
                        Ok(v) => v,
                        Err(e) => {
                            return Err(e);
                        },
                    };
                    Ok((current_version, next_version))
                }
            },
        }
    }

    /// The candidate version-declaring files, in the order resolution
    /// tries them.
    pub fn version_file_names(&self) -> (r: Vec<String>)
        ensures
            r@.len() == 2,
            r@[0]@ == "package.json"@,
            r@[1]@ == "version.json"@,
    {
        let mut r: Vec<String> = Vec::new();
        r.push(String::from_str("package.json"));
        r.push(String::from_str("version.json"));
        r
    }

    /// The on-disk location of a candidate version file, joined exactly as
    /// [`path_join`] describes.
    pub fn get_version_path(&self, file_name: &str) -> (r: CustomResult<String>)
        ensures
            r matches Ok(p) && p@ == path_join(self.repo@, file_name@),
    {
        let repo = chars_of(self.repo.as_str());
        let mut out = take_vec(&repo, repo.len());
        proof {
            assert(out@ =~= self.repo@);
        }
        if repo.len() > 0 && repo[repo.len() - 1] != '/' {
            out.push('/');
        }
        let file = chars_of(file_name);
        crate::strutil::append_chars(&mut out, &file);
        proof {
            assert(out@ =~= path_join(self.repo@, file_name@));
        }
        Ok(string_of(&out))
    }
}

/// Reads the `version` member of one manifest document through
/// serde_json: a malformed document is an error, a missing or unreal
/// version is no candidate, and an accepted one is exactly
/// [`manifest_candidate`] of the text.
fn manifest_version(content: &str) -> (r: CustomResult<Option<String>>)
    ensures
        r is Err <==> !crate::json::json_ok(content@),
        r matches Ok(v) ==> match (v, manifest_candidate(content@)) {
            (Some(a), Some(b)) => a@ == b && a@.len() > 0 && a@ != "null"@ && a@ != "0.0.0"@,
            (None, None) => true,
            _ => false,
        },
        r matches Err(e) ==> (e matches CustomError::VersionBuild(m) && m@
            == "JSON was not well-formatted"@),
{
    match crate::json::read_version_field(content) {
        Err(_) => Err(CustomError::VersionBuild(String::from_str("JSON was not well-formatted"))),
        Ok(None) => Ok(None),
        Ok(Some(rendered)) => {
            match real_version_of(rendered.as_str()) {
                None => Ok(None),
                Some(v) => {
                    proof {
                        lemma_candidate_real(rendered@);
                    }
                    Ok(Some(v))
                },
            }
        },
    }
}

/// A surviving candidate is never empty, `null`, or the placeholder.
proof fn lemma_candidate_real(raw: Seq<char>)
    requires
        version_candidate(raw) is Some,
    ensures
        version_candidate(raw)->0.len() > 0,
        version_candidate(raw)->0 != "null"@,
        version_candidate(raw)->0 != "0.0.0"@,
{
}

/// The final dot-separated segment is a suffix of the whole string.
proof fn lemma_after_last_len(s: Seq<char>, seg: Seq<char>)
    requires
        seg == after_last_s(s, '.'),
    ensures
        seg.len() <= s.len(),
    decreases s.len(),
{
    if s.len() > 0 && s[s.len() - 1] != '.' {
        lemma_after_last_len(s.take(s.len() - 1), after_last_s(s.take(s.len() - 1), '.'));
    }
}

/// Under either policy the computed next version differs from the current
/// one: the pipeline always advances.
pub proof fn lemma_letter_next_advances(s: Seq<char>)
    requires
        s.len() > 0,
    ensures
        letter_next(s) != s,
{
    let last = s[s.len() - 1];
    if is_ascii_letter(last) && last != 'z' {
        assert(letter_next(s)[s.len() - 1] == succ_char(last));
        assert(succ_char(last) != last);
    } else if last == 'z' {
        assert(letter_next(s).len() == s.len() + 1);
    } else {
        assert(letter_next(s).len() == s.len() + 1);
    }
}

/// The numeric policy also always advances: whenever a next version
/// exists, it differs from the current one.
pub proof fn lemma_digit_next_advances(s: Seq<char>)
    requires
        digit_next(s) is Some,
    ensures
        digit_next(s) != Some(s),
{
    let seg = after_last_s(s, '.');
    if parses_as_u32(seg) {
        let n = u32_of_str(seg);
        let out = s.take(s.len() - seg.len()) + dec_str((n + 1) as nat);
        lemma_after_last_len(s, seg);
        lemma_dec_str_val((n + 1) as nat);
        if out == s {
            assert(out.len() == s.len());
            assert(dec_str((n + 1) as nat).len() == seg.len());
            assert(dec_str((n + 1) as nat) =~= out.skip(s.len() - seg.len()));
            lemma_after_last_suffix(s, seg);
            assert(seg =~= s.skip(s.len() - seg.len()));
            assert(dec_str((n + 1) as nat) == seg);
            assert(strip_plus(seg) == seg);
            assert(dec_val(seg) == n + 1);
            assert(false);
        }
    } else {
        let i = last_digit_idx(s);
        lemma_last_digit_bounds(s);
        let out = s.take(i).push(succ_char(s[i]));
        if out == s {
            assert(out.len() == i + 1);
            assert(out[i] == succ_char(s[i]));
            assert(succ_char(s[i]) != s[i]);
        }
    }
}

/// What follows the last separator is literally the tail of the string.
proof fn lemma_after_last_suffix(s: Seq<char>, seg: Seq<char>)
    requires
        seg == after_last_s(s, '.'),
    ensures
        seg.len() <= s.len(),
        seg =~= s.skip(s.len() - seg.len()),
    decreases s.len(),
{
    if s.len() == 0 {
    } else if s[s.len() - 1] == '.' {
    } else {
        let p = s.take(s.len() - 1);
        lemma_after_last_suffix(p, after_last_s(p, '.'));
        assert(seg =~= s.skip(s.len() - seg.len()));
    }
}

proof fn lemma_last_digit_bounds(s: Seq<char>)
    requires
        last_digit_idx(s) >= 0,
    ensures
        last_digit_idx(s) < s.len(),
        is_digit(s[last_digit_idx(s)]),
    decreases s.len(),
{
    if s.len() > 0 && !is_digit(s[s.len() - 1]) {
        lemma_last_digit_bounds(s.take(s.len() - 1));
    }
}

} // verus!
