//! Markdown frontmatter validation: a document must open with a frontmatter
//! block between `---` fences, carry a title, a synopsis and tags, and a
//! decision-record file must also carry a well-formed identifier and status.

use vstd::prelude::*;

verus! {

use crate::numbers::all_digits;
use crate::text::seq_contains;
use crate::text::seq_matches_at;
use crate::text::seq_starts_with;
use crate::text::spec_lines;
use crate::text::spec_split;
use crate::text::spec_trim;
use crate::text::str_to_string;
use crate::text::view_strs;

/// Whether `id` is a well-formed decision-record identifier: a date and a
/// serial, as eleven digits.
pub open spec fn spec_valid_adr_id(id: Seq<char>) -> bool {
    id.len() == 11 && all_digits(id)
}

/// Whether `d` is a date written as four digits, a dash, two digits, a dash,
/// two digits.
pub open spec fn spec_valid_date(d: Seq<char>) -> bool {
    d.len() == 10 && all_digits(d.subrange(0, 4)) && d[4] == '-' && all_digits(
        d.subrange(5, 7),
    ) && d[7] == '-' && all_digits(d.subrange(8, 10))
}

/// Whether `v` is a semantic version: three non-empty digit runs joined by
/// dots.
pub open spec fn spec_valid_semver(v: Seq<char>) -> bool {
    let parts = spec_split(v, '.');
    parts.len() == 3 && (forall|i: int|
        0 <= i < 3 ==> (#[trigger] parts[i]).len() > 0 && all_digits(parts[i]))
}

/// Whether `s` names one of the accepted decision statuses.
pub open spec fn spec_valid_status(s: Seq<char>) -> bool {
    s == "proposed"@ || s == "accepted"@ || s == "deprecated"@ || s == "superseded"@
}

/// The position of the first occurrence of `c` in `s`, if any.
pub open spec fn first_char(s: Seq<char>, c: char) -> Option<int> {
    if exists|i: int| 0 <= i < s.len() && s[i] == c {
        Some(
            choose|i: int|
                0 <= i < s.len() && s[i] == c && forall|j: int| 0 <= j < i ==> s[j] != c,
        )
    } else {
        None
    }
}

proof fn lemma_first_char_is(s: Seq<char>, c: char, i: int)
    requires
        0 <= i < s.len(),
        s[i] == c,
        forall|j: int| 0 <= j < i ==> s[j] != c,
    ensures
        first_char(s, c) == Some(i),
{
    let k = choose|k: int|
        0 <= k < s.len() && s[k] == c && forall|j: int| 0 <= j < k ==> s[j] != c;
    assert(exists|k: int|
        0 <= k < s.len() && s[k] == c && forall|j: int| 0 <= j < k ==> s[j] != c);
    if k < i {
        assert(s[k] != c);
        assert(false);
    }
    if i < k {
        assert(s[i] != c);
        assert(false);
    }
}

/// The position of the first occurrence of `needle` in `hay`, if any.
pub open spec fn first_sub(hay: Seq<char>, needle: Seq<char>) -> Option<int> {
    if seq_contains(hay, needle) {
        Some(
            choose|i: int|
                seq_matches_at(hay, needle, i) && forall|j: int|
                    0 <= j < i ==> !seq_matches_at(hay, needle, j),
        )
    } else {
        None
    }
}

proof fn lemma_first_sub_is(hay: Seq<char>, needle: Seq<char>, i: int)
    requires
        seq_matches_at(hay, needle, i),
        forall|j: int| 0 <= j < i ==> !seq_matches_at(hay, needle, j),
    ensures
        first_sub(hay, needle) == Some(i),
{
    let k = choose|k: int|
        seq_matches_at(hay, needle, k) && forall|j: int|
            0 <= j < k ==> !seq_matches_at(hay, needle, j);
    assert(exists|k: int|
        seq_matches_at(hay, needle, k) && forall|j: int|
            0 <= j < k ==> !seq_matches_at(hay, needle, j));
    if k < i {
        assert(!seq_matches_at(hay, needle, k));
        assert(false);
    }
    if i < k {
        assert(!seq_matches_at(hay, needle, i));
        assert(false);
    }
}

/// The state of the frontmatter scan: which required fields were seen, the
/// identifying fields, and the errors raised so far, in order.
#[verifier::ext_equal]
pub struct FmState {
    pub has_title: bool,
    pub has_synopsis: bool,
    pub has_tags: bool,
    pub adr_id: Option<Seq<char>>,
    pub status: Option<Seq<char>>,
    pub errors: Seq<Seq<char>>,
}

/// The scan state before any line.
pub open spec fn fm_init() -> FmState {
    FmState {
        has_title: false,
        has_synopsis: false,
        has_tags: false,
        adr_id: None,
        status: None,
        errors: Seq::empty(),
    }
}

/// A value stripped of one pair of surrounding double quotes, when it
/// carries one.
pub open spec fn unquote(s: Seq<char>) -> Seq<char> {
    if s.len() >= 2 && s[0] == '"' && s[s.len() - 1] == '"' {
        s.subrange(1, s.len() - 1)
    } else {
        s
    }
}

/// One frontmatter line folded into the scan state: a blank line or one
/// without a colon changes nothing; a known key is checked and recorded, its
/// value trimmed and unquoted; an unknown key is allowed.
pub open spec fn fm_line_step(st: FmState, raw: Seq<char>) -> FmState {
    let line = spec_trim(raw);
    if line.len() == 0 {
        st
    } else {
        match first_char(line, ':') {
            None => st,
            Some(cp) => {
                let key = spec_trim(line.take(cp));
                let value = unquote(spec_trim(line.skip(cp + 1)));
                if key == "title"@ {
                    FmState {
                        has_title: true,
                        errors: st.errors + (if value.len() == 0 {
                            seq!["title field is empty"@]
                        } else {
                            Seq::empty()
                        }),
                        ..st
                    }
                } else if key == "synopsis"@ {
                    FmState {
                        has_synopsis: true,
                        errors: st.errors + (if value.len() == 0 {
                            seq!["synopsis field is empty"@]
                        } else {
                            Seq::empty()
                        }),
                        ..st
                    }
                } else if key == "tags"@ {
                    FmState {
                        has_tags: true,
                        errors: st.errors + (if value.len() == 0 || value == "[]"@ {
                            seq!["tags array is empty"@]
                        } else {
                            Seq::empty()
                        }),
                        ..st
                    }
                } else if key == "adr-id"@ {
                    FmState {
                        adr_id: Some(value),
                        errors: st.errors + (if !spec_valid_adr_id(value) {
                            seq![
                                "Invalid adr-id format '"@ + value
                                    + "'. Expected YYYYMMDDNNN"@,
                            ]
                        } else {
                            Seq::empty()
                        }),
                        ..st
                    }
                } else if key == "status"@ {
                    FmState {
                        status: Some(value),
                        errors: st.errors + (if !spec_valid_status(value) {
                            seq![
                                "Invalid status '"@ + value
                                    + "'. Must be: proposed, accepted, deprecated, or superseded"@,
                            ]
                        } else {
                            Seq::empty()
                        }),
                        ..st
                    }
                } else if key == "date-created"@ || key == "date-updated"@ {
                    FmState {
                        errors: st.errors + (if !spec_valid_date(value) {
                            seq![
                                "Invalid date format '"@ + value + "'. Expected YYYY-MM-DD"@,
                            ]
                        } else {
                            Seq::empty()
                        }),
                        ..st
                    }
                } else if key == "version"@ {
                    FmState {
                        errors: st.errors + (if !spec_valid_semver(value) {
                            seq![
                                "Invalid version format '"@ + value
                                    + "'. Expected semantic versioning"@,
                            ]
                        } else {
                            Seq::empty()
                        }),
                        ..st
                    }
                } else {
                    st
                }
            },
        }
    }
}

/// The scan state after folding every line, in order.
pub open spec fn fm_fold(st: FmState, lines: Seq<Seq<char>>) -> FmState
    decreases lines,
{
    if lines.len() == 0 {
        st
    } else {
        fm_fold(fm_line_step(st, lines[0]), lines.skip(1))
    }
}

proof fn lemma_fm_fold_snoc(st: FmState, s: Seq<Seq<char>>, e: Seq<char>)
    ensures
        fm_fold(st, s.push(e)) == fm_line_step(fm_fold(st, s), e),
    decreases s.len(),
{
    if s.len() == 0 {
        assert(s.push(e)[0] == e);
        assert(s.push(e).skip(1) =~= Seq::<Seq<char>>::empty());
        assert(fm_fold(st, s) == st);
        assert(fm_fold(fm_line_step(st, e), Seq::<Seq<char>>::empty()) == fm_line_step(
            st,
            e,
        ));
    } else {
        lemma_fm_fold_snoc(fm_line_step(st, s[0]), s.skip(1), e);
        assert(s.push(e).skip(1) =~= s.skip(1).push(e));
        assert(s.push(e)[0] == s[0]);
        assert(fm_fold(st, s) == fm_fold(fm_line_step(st, s[0]), s.skip(1)));
        assert(fm_fold(st, s.push(e)) == fm_fold(fm_line_step(st, s[0]), s.skip(1).push(e)));
    }
}

/// The identifying fields read from a frontmatter block.
#[derive(Debug)]
pub struct FrontmatterFields {
    pub adr_id: Option<String>,
    pub status: Option<String>,
}

/// The mathematical form of the identifying fields.
#[verifier::ext_equal]
pub struct FrontmatterFieldsV {
    pub adr_id: Option<Seq<char>>,
    pub status: Option<Seq<char>>,
}

impl View for FrontmatterFields {
    type V = FrontmatterFieldsV;

    open spec fn view(&self) -> FrontmatterFieldsV {
        FrontmatterFieldsV {
            adr_id: crate::events::view_opt_str(self.adr_id),
            status: crate::events::view_opt_str(self.status),
        }
    }
}

/// A frontmatter block that passed validation.
#[derive(Debug)]
pub struct FrontmatterValidation {
    pub is_valid: bool,
    pub fields: FrontmatterFields,
}

/// Every error the frontmatter of `content` raises, for a file at
/// `file_path`: the fence errors, then the per-line errors in line order,
/// then the missing required fields, then the decision-record demands.
pub open spec fn spec_frontmatter_errors(content: Seq<char>, file_path: Seq<char>) -> Seq<
    Seq<char>,
> {
    if !seq_starts_with(content, "---"@) {
        seq!["Missing frontmatter block (must start with ---)"@]
    } else {
        match first_sub(content.skip(3), "---"@) {
            None => seq!["Incomplete frontmatter block (missing closing ---)"@],
            Some(e) => {
                let block = content.skip(3).take(e);
                let st = fm_fold(fm_init(), spec_lines(block));
                st.errors + (if !st.has_title {
                    seq!["Missing required field: title"@]
                } else {
                    Seq::empty()
                }) + (if !st.has_synopsis {
                    seq!["Missing required field: synopsis"@]
                } else {
                    Seq::empty()
                }) + (if !st.has_tags {
                    seq!["Missing required field: tags"@]
                } else {
                    Seq::empty()
                }) + (if seq_contains(file_path, "internal-docs/adr"@) && st.adr_id is None {
                    seq!["ADR files must have adr-id field"@]
                } else {
                    Seq::empty()
                }) + (if seq_contains(file_path, "internal-docs/adr"@) && st.status is None {
                    seq!["ADR files must have status field"@]
                } else {
                    Seq::empty()
                })
            },
        }
    }
}

/// The identifying fields the frontmatter of `content` carries, when it
/// raises no error.
pub open spec fn spec_frontmatter_fields(content: Seq<char>) -> FrontmatterFieldsV {
    match first_sub(content.skip(3), "---"@) {
        None => FrontmatterFieldsV { adr_id: None, status: None },
        Some(e) => {
            let block = content.skip(3).take(e);
            let st = fm_fold(fm_init(), spec_lines(block));
            FrontmatterFieldsV { adr_id: st.adr_id, status: st.status }
        },
    }
}

/// The frontmatter rules.
pub struct MarkdownFrontmatterRuleSet;

impl MarkdownFrontmatterRuleSet {
    /// Whether `id` is a well-formed decision-record identifier: eleven
    /// digits.
    pub fn is_valid_adr_id(id: &str) -> (r: bool)
        ensures
            r == spec_valid_adr_id(id@),
    {
        id.unicode_len() == 11 && crate::numbers::str_all_digits(id)
    }

    /// Whether `d` is a date written `YYYY-MM-DD`.
    pub fn is_valid_date(d: &str) -> (r: bool)
        ensures
            r == spec_valid_date(d@),
    {
        let v = crate::text::chars_of(d);
        if v.len() != 10 {
            return false;
        }
        if v[4] != '-' || v[7] != '-' {
            return false;
        }
        let ok = digits_in(&v, 0, 4) && digits_in(&v, 5, 7) && digits_in(&v, 8, 10);
        proof {
            if ok {
                assert(all_digits(d@.subrange(0, 4)));
                assert(all_digits(d@.subrange(5, 7)));
                assert(all_digits(d@.subrange(8, 10)));
            }
        }
        ok
    }

    /// Whether `s` is a semantic version: three dot-joined digit runs.
    pub fn is_valid_semver(s: &str) -> (r: bool)
        ensures
            r == spec_valid_semver(s@),
    {
        let parts = crate::text::split_str(s, '.');
        let ghost pv = view_strs(parts@);
        proof {
            crate::text::lemma_view_strs(parts@);
        }
        if parts.len() != 3 {
            return false;
        }
        let ok = parts[0].as_str().unicode_len() > 0 && crate::numbers::str_all_digits(
            parts[0].as_str(),
        ) && parts[1].as_str().unicode_len() > 0 && crate::numbers::str_all_digits(
            parts[1].as_str(),
        ) && parts[2].as_str().unicode_len() > 0 && crate::numbers::str_all_digits(
            parts[2].as_str(),
        );
        proof {
            assert(pv[0] == parts@[0]@);
            assert(pv[1] == parts@[1]@);
            assert(pv[2] == parts@[2]@);
        }
        ok
    }

    /// Validates the frontmatter of a markdown document at the given path:
    /// the fences, each keyed line, the required fields, and, for a file
    /// under the decision-record directory, the identifier and status.
    #[verifier::rlimit(100)]
    #[verifier::spinoff_prover]
    pub fn validate_frontmatter(content: &str, file_path: &str) -> (r: Result<
        FrontmatterValidation,
        Vec<String>,
    >)
        ensures
            match r {
                Ok(v) => spec_frontmatter_errors(content@, file_path@) == Seq::<
                    Seq<char>,
                >::empty() && v.is_valid && v.fields@ == spec_frontmatter_fields(content@),
                Err(errors) => view_strs(errors@) == spec_frontmatter_errors(
                    content@,
                    file_path@,
                ) && view_strs(errors@).len() > 0,
            },
    {
        if !crate::text::str_starts_with(content, "---") {
            let errors = vec![str_to_string("Missing frontmatter block (must start with ---)")];
            proof {
                crate::text::lemma_view_strs(errors@);
                assert(view_strs(errors@) =~= spec_frontmatter_errors(content@, file_path@));
            }
            return Err(errors);
        }
        let cv = crate::text::chars_of(content);
        proof {
            reveal_strlit("---");
            assert(content@.len() >= 3);
        }
        let tail = crate::text::string_of_suffix(&cv, 3);
        let tailv = crate::text::chars_of(tail.as_str());
        let fence = crate::text::chars_of("---");
        let fence_end = match crate::text::find_sub(&tailv, &fence) {
            Some(i) => i,
            None => {
                proof {
                    assert(first_sub(content@.skip(3), "---"@) is None);
                }
                let errors = vec![
                    str_to_string("Incomplete frontmatter block (missing closing ---)"),
                ];
                proof {
                    crate::text::lemma_view_strs(errors@);
                    assert(view_strs(errors@) =~= spec_frontmatter_errors(
                        content@,
                        file_path@,
                    ));
                }
                return Err(errors);
            },
        };
        proof {
            lemma_first_sub_is(content@.skip(3), "---"@, fence_end as int);
        }
        let mut blockv: Vec<char> = Vec::new();
        let mut bi: usize = 0;
        while bi < fence_end
            invariant
                bi <= fence_end,
                fence_end as int + 3 <= tailv@.len() + 3,
                fence_end <= tailv@.len(),
                tailv@ == content@.skip(3),
                blockv@ == tailv@.subrange(0, bi as int),
            decreases fence_end - bi,
        {
            blockv.push(tailv[bi]);
            bi = bi + 1;
            assert(blockv@ =~= tailv@.subrange(0, bi as int));
        }
        let block = crate::text::string_of(&blockv);
        assert(block@ =~= content@.skip(3).take(fence_end as int));
        let lines = crate::text::lines_of(block.as_str());
        let ghost lv = spec_lines(block@);
        proof {
            crate::text::lemma_view_strs(lines@);
        }

        let mut has_title = false;
        let mut has_synopsis = false;
        let mut has_tags = false;
        let mut adr_id: Option<String> = None;
        let mut status: Option<String> = None;
        let mut errors: Vec<String> = Vec::new();
        let ghost st0 = fm_init();
        proof {
            crate::text::lemma_view_strs(errors@);
            assert(lv.take(0) =~= Seq::<Seq<char>>::empty());
            assert(view_strs(errors@) =~= Seq::<Seq<char>>::empty());
        }
        let mut i: usize = 0;
        while i < lines.len()
            invariant
                i <= lines@.len(),
                lv == spec_lines(block@),
                view_strs(lines@) == lv,
                lv.len() == lines@.len(),
                forall|j: int| 0 <= j < lv.len() ==> lv[j] == lines@[j]@,
                ({
                    let st = fm_fold(fm_init(), lv.take(i as int));
                    &&& has_title == st.has_title
                    &&& has_synopsis == st.has_synopsis
                    &&& has_tags == st.has_tags
                    &&& crate::events::view_opt_str(adr_id) == st.adr_id
                    &&& crate::events::view_opt_str(status) == st.status
                    &&& view_strs(errors@) == st.errors
                }),
            decreases lines.len() - i,
        {
            let ghost prefix = lv.take(i as int);
            let ghost st = fm_fold(fm_init(), prefix);
            proof {
                assert(prefix.push(lv[i as int]) =~= lv.take(i + 1));
                lemma_fm_fold_snoc(fm_init(), prefix, lv[i as int]);
            }
            let raw = lines[i].as_str();
            let line = crate::text::trim_str(raw);
            let linev = crate::text::chars_of(line.as_str());
            if linev.len() > 0 {
                match crate::text::find_char(&linev, ':') {
                    None => {
                        proof {
                            assert(forall|j: int|
                                0 <= j < line@.len() ==> line@[j] != ':');
                            assert(first_char(line@, ':') is None);
                        }
                    },
                    Some(cp) => {
                        proof {
                            lemma_first_char_is(line@, ':', cp as int);
                        }
                        let mut keyv: Vec<char> = Vec::new();
                        let mut k: usize = 0;
                        while k < cp
                            invariant
                                k <= cp,
                                cp < linev@.len(),
                                linev@ == line@,
                                keyv@ == line@.subrange(0, k as int),
                            decreases cp - k,
                        {
                            keyv.push(linev[k]);
                            k = k + 1;
                            assert(keyv@ =~= line@.subrange(0, k as int));
                        }
                        assert(keyv@ =~= line@.take(cp as int));
                        let keyt = crate::text::trim_chars(&keyv);
                        let key = crate::text::string_of(&keyt);
                        let valraw = crate::text::string_of_suffix(&linev, cp + 1);
                        let trimmed_value = crate::text::trim_str(valraw.as_str());
                        let tv = crate::text::chars_of(trimmed_value.as_str());
                        let value: String;
                        if tv.len() >= 2 && tv[0] == '"' && tv[tv.len() - 1] == '"' {
                            let mut inner: Vec<char> = Vec::new();
                            let mut q: usize = 1;
                            while q < tv.len() - 1
                                invariant
                                    1 <= q <= tv@.len() - 1,
                                    tv@.len() >= 2,
                                    inner@ == tv@.subrange(1, q as int),
                                decreases tv.len() - q,
                            {
                                inner.push(tv[q]);
                                q = q + 1;
                                assert(inner@ =~= tv@.subrange(1, q as int));
                            }
                            assert(inner@ =~= tv@.subrange(1, tv@.len() - 1));
                            value = crate::text::string_of(&inner);
                        } else {
                            value = trimmed_value;
                        }
                        assert(value@ == unquote(spec_trim(valraw@)));
                        let vlen = value.as_str().unicode_len();
                        if crate::text::str_eq(key.as_str(), "title") {
                            has_title = true;
                            if vlen == 0 {
                                let ghost pre = errors@;
                                errors.push(str_to_string("title field is empty"));
                                proof {
                                    crate::text::lemma_view_strs_push(
                                        pre,
                                        errors@[pre.len() as int],
                                    );
                                }
                            }
                        } else if crate::text::str_eq(key.as_str(), "synopsis") {
                            has_synopsis = true;
                            if vlen == 0 {
                                let ghost pre = errors@;
                                errors.push(str_to_string("synopsis field is empty"));
                                proof {
                                    crate::text::lemma_view_strs_push(
                                        pre,
                                        errors@[pre.len() as int],
                                    );
                                }
                            }
                        } else if crate::text::str_eq(key.as_str(), "tags") {
                            has_tags = true;
                            if vlen == 0 || crate::text::str_eq(value.as_str(), "[]") {
                                let ghost pre = errors@;
                                errors.push(str_to_string("tags array is empty"));
                                proof {
                                    crate::text::lemma_view_strs_push(
                                        pre,
                                        errors@[pre.len() as int],
                                    );
                                }
                            }
                        } else if crate::text::str_eq(key.as_str(), "adr-id") {
                            if !Self::is_valid_adr_id(value.as_str()) {
                                let mut m = str_to_string("Invalid adr-id format '");
                                crate::text::append_str(&mut m, value.as_str());
                                crate::text::append_str(&mut m, "'. Expected YYYYMMDDNNN");
                                let ghost pre = errors@;
                                errors.push(m);
                                proof {
                                    crate::text::lemma_view_strs_push(
                                        pre,
                                        errors@[pre.len() as int],
                                    );
                                }
                            }
                            adr_id = Some(value);
                        } else if crate::text::str_eq(key.as_str(), "status") {
                            let ok = crate::text::str_eq(value.as_str(), "proposed")
                                || crate::text::str_eq(value.as_str(), "accepted")
                                || crate::text::str_eq(value.as_str(), "deprecated")
                                || crate::text::str_eq(value.as_str(), "superseded");
                            if !ok {
                                let mut m = str_to_string("Invalid status '");
                                crate::text::append_str(&mut m, value.as_str());
                                crate::text::append_str(
                                    &mut m,
                                    "'. Must be: proposed, accepted, deprecated, or superseded",
                                );
                                let ghost pre = errors@;
                                errors.push(m);
                                proof {
                                    crate::text::lemma_view_strs_push(
                                        pre,
                                        errors@[pre.len() as int],
                                    );
                                }
                            }
                            status = Some(value);
                        } else if crate::text::str_eq(key.as_str(), "date-created")
                            || crate::text::str_eq(key.as_str(), "date-updated") {
                            if !Self::is_valid_date(value.as_str()) {
                                let mut m = str_to_string("Invalid date format '");
                                crate::text::append_str(&mut m, value.as_str());
                                crate::text::append_str(&mut m, "'. Expected YYYY-MM-DD");
                                let ghost pre = errors@;
                                errors.push(m);
                                proof {
                                    crate::text::lemma_view_strs_push(
                                        pre,
                                        errors@[pre.len() as int],
                                    );
                                }
                            }
                        } else if crate::text::str_eq(key.as_str(), "version") {
                            if !Self::is_valid_semver(value.as_str()) {
                                let mut m = str_to_string("Invalid version format '");
                                crate::text::append_str(&mut m, value.as_str());
                                crate::text::append_str(
                                    &mut m,
                                    "'. Expected semantic versioning",
                                );
                                let ghost pre = errors@;
                                errors.push(m);
                                proof {
                                    crate::text::lemma_view_strs_push(
                                        pre,
                                        errors@[pre.len() as int],
                                    );
                                }
                            }
                        }
                    },
                }
            }
            i = i + 1;
            proof {
                let stn = fm_fold(fm_init(), lv.take(i as int));
                assert(stn == fm_line_step(st, lv[i - 1]));
                assert(view_strs(errors@) =~= stn.errors);
            }
        }
        proof {
            assert(lv.take(lines@.len() as int) =~= lv);
        }

        let is_adr = crate::text::str_contains(file_path, "internal-docs/adr");
        let ghost st = fm_fold(fm_init(), lv);
        if !has_title {
            let ghost pre = errors@;
            errors.push(str_to_string("Missing required field: title"));
            proof {
                crate::text::lemma_view_strs_push(pre, errors@[pre.len() as int]);
            }
        }
        if !has_synopsis {
            let ghost pre = errors@;
            errors.push(str_to_string("Missing required field: synopsis"));
            proof {
                crate::text::lemma_view_strs_push(pre, errors@[pre.len() as int]);
            }
        }
        if !has_tags {
            let ghost pre = errors@;
            errors.push(str_to_string("Missing required field: tags"));
            proof {
                crate::text::lemma_view_strs_push(pre, errors@[pre.len() as int]);
            }
        }
        let adr_missing_id = is_adr && adr_id.is_none();
        if adr_missing_id {
            let ghost pre = errors@;
            errors.push(str_to_string("ADR files must have adr-id field"));
            proof {
                crate::text::lemma_view_strs_push(pre, errors@[pre.len() as int]);
            }
        }
        let adr_missing_status = is_adr && status.is_none();
        if adr_missing_status {
            let ghost pre = errors@;
            errors.push(str_to_string("ADR files must have status field"));
            proof {
                crate::text::lemma_view_strs_push(pre, errors@[pre.len() as int]);
            }
        }
        proof {
            assert(view_strs(errors@) =~= spec_frontmatter_errors(content@, file_path@));
        }
        if errors.len() == 0 {
            proof {
                crate::text::lemma_view_strs(errors@);
            }
            let fields = FrontmatterFields { adr_id, status };
            assert(fields@ =~= spec_frontmatter_fields(content@));
            Ok(FrontmatterValidation { is_valid: true, fields })
        } else {
            proof {
                crate::text::lemma_view_strs(errors@);
            }
            Err(errors)
        }
    }
}

fn digits_in(v: &Vec<char>, from: usize, to: usize) -> (r: bool)
    requires
        from <= to <= v@.len(),
    ensures
        r == all_digits(v@.subrange(from as int, to as int)),
{
    let mut i: usize = from;
    while i < to
        invariant
            from <= i <= to <= v@.len(),
            forall|j: int| from <= j < i ==> #[trigger] crate::numbers::spec_digit_val(
                v@[j],
            ) < 10,
        decreases to - i,
    {
        let c = v[i];
        let ok = c == '0' || c == '1' || c == '2' || c == '3' || c == '4' || c == '5'
            || c == '6' || c == '7' || c == '8' || c == '9';
        if !ok {
            assert(crate::numbers::spec_digit_val(v@.subrange(from as int, to as int)[i
                - from]) >= 10);
            return false;
        }
        i = i + 1;
    }
    assert forall|j: int| 0 <= j < to - from implies #[trigger] crate::numbers::spec_digit_val(
        v@.subrange(from as int, to as int)[j],
    ) < 10 by {
        assert(v@.subrange(from as int, to as int)[j] == v@[from + j]);
    }
    true
}

} // verus!
