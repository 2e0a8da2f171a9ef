use vstd::prelude::*;

use crate::error::AppError;
use crate::storage::{join_path, path_join};
use crate::text::{
    ascii_lower_char, chars_of, concat3, is_ascii_alphanumeric, is_ascii_alphanumeric_char, is_whitespace,
    is_whitespace_char, push_char, to_ascii_lowercase, trim_start_char, without_leading,
};

verus! {

/// A character kept in file names: an ASCII letter or digit, `-` or `_`.
pub open spec fn name_char(c: char) -> bool {
    is_ascii_alphanumeric_char(c) || c == '-' || c == '_'
}

/// `s` reduced to its file-name characters, in lower case.
pub open spec fn segment_seq(s: Seq<char>) -> Seq<char>
    decreases s.len(),
{
    if s.len() == 0 {
        Seq::empty()
    } else if name_char(s.last()) {
        segment_seq(s.drop_last()).push(ascii_lower_char(s.last()))
    } else {
        segment_seq(s.drop_last())
    }
}

/// See `segment_seq`.
pub fn sanitize_path_segment(value: &str) -> (r: String)
    ensures
        r@ == segment_seq(value@),
{
    let v = chars_of(value);
    let mut r = String::new();
    let mut i: usize = 0;
    assert(value@.take(0) =~= Seq::<char>::empty());
    while i < v.len()
        invariant
            i <= v.len(),
            v@ == value@,
            r@ == segment_seq(value@.take(i as int)),
        decreases v.len() - i,
    {
        assert(value@.take(i as int + 1).drop_last() =~= value@.take(i as int));
        let c = v[i];
        if is_ascii_alphanumeric(c) || c == '-' || c == '_' {
            push_char(&mut r, to_ascii_lowercase(c));
        }
        i += 1;
    }
    assert(value@.take(v.len() as int) =~= value@);
    r
}

/// A character that sanitizing keeps as it is: a file-name character that
/// is not an upper-case letter.
pub open spec fn clean_name_char(c: char) -> bool {
    name_char(c) && !('A' <= c && c <= 'Z')
}

/// A sanitized path segment holds only file-name characters, none of them
/// upper case: no separator, dot or space can survive in it.
pub proof fn lemma_segment_is_clean(s: Seq<char>)
    ensures
        forall|i: int| 0 <= i < segment_seq(s).len() ==> clean_name_char(#[trigger] segment_seq(s)[i]),
    decreases s.len(),
{
    if s.len() > 0 {
        lemma_segment_is_clean(s.drop_last());
        let c = s.last();
        if name_char(c) {
            let l = ascii_lower_char(c);
            assert(clean_name_char(l)) by {
                if 'A' <= c && c <= 'Z' {
                    assert((c as u32) + 32 <= 'z' as u32);
                }
            }
            let prev = segment_seq(s.drop_last());
            assert(segment_seq(s) == prev.push(l));
            assert forall|i: int| 0 <= i < prev.push(l).len() implies clean_name_char(#[trigger] prev.push(l)[i]) by {
                if i < prev.len() {
                    assert(prev.push(l)[i] == prev[i]);
                }
            }
        } else {
            assert(segment_seq(s) == segment_seq(s.drop_last()));
        }
    }
}

/// A segment made only of clean characters is left as it is.
proof fn lemma_clean_segment_fixed(t: Seq<char>)
    requires
        forall|i: int| 0 <= i < t.len() ==> clean_name_char(#[trigger] t[i]),
    ensures
        segment_seq(t) == t,
    decreases t.len(),
{
    if t.len() > 0 {
        lemma_clean_segment_fixed(t.drop_last());
        assert(clean_name_char(t[t.len() - 1]));
        assert(t.drop_last().push(t.last()) =~= t);
    }
}

/// Sanitizing a segment twice gives what sanitizing it once gave.
pub proof fn lemma_segment_idempotent(s: Seq<char>)
    ensures
        segment_seq(segment_seq(s)) == segment_seq(s),
{
    lemma_segment_is_clean(s);
    lemma_clean_segment_fixed(segment_seq(s));
}

/// An artifact file name is made of clean file-name characters around one
/// dot, with something on either side of it: it names no directory and
/// cannot climb out of the directory it is joined to.
pub proof fn lemma_artifact_file_is_safe(id: Seq<char>, format: Seq<char>)
    requires
        segment_seq(id).len() > 0,
        segment_seq(trim_start_char(format, '.')).len() > 0,
    ensures
        ({
            let f = artifact_file(id, format);
            let d = segment_seq(id).len() as int;
            &&& 0 < d < f.len() - 1
            &&& f[d] == '.'
            &&& forall|i: int| 0 <= i < f.len() && i != d ==> clean_name_char(#[trigger] f[i])
        }),
{
    let a = segment_seq(id);
    let b = segment_seq(trim_start_char(format, '.'));
    lemma_segment_is_clean(id);
    lemma_segment_is_clean(trim_start_char(format, '.'));
    reveal_strlit(".");
    let f = artifact_file(id, format);
    assert(f =~= a + seq!['.'] + b);
    assert forall|i: int| 0 <= i < f.len() && i != a.len() implies clean_name_char(#[trigger] f[i]) by {
        if i < a.len() {
            assert(f[i] == a[i]);
        } else {
            assert(f[i] == b[i - a.len() - 1]);
        }
    }
}

/// `s` reduced to its file-name characters, case kept.
pub open spec fn prefix_seq(s: Seq<char>) -> Seq<char>
    decreases s.len(),
{
    if s.len() == 0 {
        Seq::empty()
    } else if name_char(s.last()) {
        prefix_seq(s.drop_last()).push(s.last())
    } else {
        prefix_seq(s.drop_last())
    }
}

/// A prefix for temporary files: the file-name characters of `value`, or
/// `audio` when there are none.
pub fn sanitize_temp_prefix(value: &str) -> (r: String)
    ensures
        r@ == if prefix_seq(value@).len() == 0 {
            "audio"@
        } else {
            prefix_seq(value@)
        },
{
    let v = chars_of(value);
    let mut r = String::new();
    let mut i: usize = 0;
    assert(value@.take(0) =~= Seq::<char>::empty());
    while i < v.len()
        invariant
            i <= v.len(),
            v@ == value@,
            r@ == prefix_seq(value@.take(i as int)),
        decreases v.len() - i,
    {
        assert(value@.take(i as int + 1).drop_last() =~= value@.take(i as int));
        let c = v[i];
        if is_ascii_alphanumeric(c) || c == '-' || c == '_' {
            push_char(&mut r, c);
        }
        i += 1;
    }
    assert(value@.take(v.len() as int) =~= value@);
    if r.unicode_len() == 0 {
        String::from_str("audio")
    } else {
        r
    }
}

/// The lower-case hexadecimal digit for `d < 16`.
pub open spec fn hex_digit(d: nat) -> char {
    if d < 10 {
        ((d + 48) as u32) as char
    } else {
        ((d + 87) as u32) as char
    }
}

/// `{:x}`: lower-case hexadecimal without leading zeros.
pub open spec fn hex_seq(n: nat) -> Seq<char>
    decreases n,
{
    if n < 16 {
        seq![hex_digit(n)]
    } else {
        hex_seq(n / 16).push(hex_digit(n % 16))
    }
}

fn hex_text(n: u32) -> (s: String)
    ensures
        s@ == hex_seq(n as nat),
    decreases n,
{
    let d = n % 16;
    let c: char = if d < 10 {
        (d as u8 + 48) as char
    } else {
        (d as u8 + 87) as char
    };
    if n < 16 {
        let mut s = String::new();
        push_char(&mut s, c);
        s
    } else {
        let mut s = hex_text(n / 16);
        push_char(&mut s, c);
        s
    }
}

/// A voice name made safe for file names: file-name characters kept in lower
/// case, whitespace dropped, anything else written `_x<hex code point>`.
pub open spec fn voice_file_seq(s: Seq<char>) -> Seq<char>
    decreases s.len(),
{
    if s.len() == 0 {
        Seq::empty()
    } else {
        let r = voice_file_seq(s.drop_last());
        let c = s.last();
        if name_char(c) {
            r.push(ascii_lower_char(c))
        } else if is_whitespace_char(c) {
            r
        } else {
            r + "_x"@ + hex_seq(c as u32 as nat)
        }
    }
}

/// See `voice_file_seq`.
pub fn sanitize_voice_name(value: &str) -> (r: String)
    ensures
        r@ == voice_file_seq(value@),
{
    let v = chars_of(value);
    let mut r = String::new();
    let mut i: usize = 0;
    assert(value@.take(0) =~= Seq::<char>::empty());
    while i < v.len()
        invariant
            i <= v.len(),
            v@ == value@,
            r@ == voice_file_seq(value@.take(i as int)),
        decreases v.len() - i,
    {
        assert(value@.take(i as int + 1).drop_last() =~= value@.take(i as int));
        let c = v[i];
        if is_ascii_alphanumeric(c) || c == '-' || c == '_' {
            push_char(&mut r, to_ascii_lowercase(c));
        } else if is_whitespace(c) {
        } else {
            r = concat3(r.as_str(), "_x", hex_text(c as u32).as_str());
        }
        i += 1;
    }
    assert(value@.take(v.len() as int) =~= value@);
    r
}

/// Where an offline job's artifact goes.
#[derive(Debug, Clone, PartialEq, Eq)]
pub struct OfflineArtifactPath {
    pub job_id: String,
    pub path: String,
}

/// Where a voice design draft's preview audio goes.
#[derive(Debug, Clone, PartialEq, Eq)]
pub struct VoiceDesignArtifactPath {
    pub draft_id: String,
    pub path: String,
}

/// The file name `<id>.<format>` of an artifact, both made safe (the format
/// without leading dots), or which of them is empty then.
pub open spec fn artifact_file(id: Seq<char>, format: Seq<char>) -> Seq<char> {
    segment_seq(id) + "."@ + segment_seq(trim_start_char(format, '.'))
}

/// The cache directories for generated audio.
#[derive(Debug, Clone, PartialEq, Eq)]
pub struct AssetCache {
    pub offline_exports_dir: String,
    pub voice_design_artifacts_dir: String,
}

impl AssetCache {
    /// A cache over these directories (creating them is the application's part).
    pub fn new(offline_exports_dir: String, voice_design_artifacts_dir: String) -> (c: AssetCache)
        ensures
            c.offline_exports_dir == offline_exports_dir,
            c.voice_design_artifacts_dir == voice_design_artifacts_dir,
    {
        AssetCache { offline_exports_dir, voice_design_artifacts_dir }
    }

    fn artifact_name(id: &str, format: &str) -> (r: (String, String))
        ensures
            r.0@ == segment_seq(id@),
            r.1@ == segment_seq(trim_start_char(format@, '.')),
    {
        let safe_id = sanitize_path_segment(id);
        let stripped = without_leading(format, '.');
        (safe_id, sanitize_path_segment(stripped.as_str()))
    }

    /// `<offline exports>/<job>.<format>`, both made safe; an id or format with
    /// nothing safe left is an invalid setting.
    pub fn offline_artifact_path(&self, job_id: &str, output_format: &str) -> (r: Result<OfflineArtifactPath, AppError>)
        ensures
            match r {
                Ok(a) => segment_seq(job_id@).len() > 0 && segment_seq(trim_start_char(output_format@, '.')).len() > 0
                    && a.job_id@ == job_id@ && a.path@ == path_join(
                    self.offline_exports_dir@,
                    artifact_file(job_id@, output_format@),
                ),
                Err(e) => e matches AppError::InvalidSettings { message } && if segment_seq(job_id@).len() == 0 {
                    message@ == "job id is required for offline artifact path"@
                } else {
                    segment_seq(trim_start_char(output_format@, '.')).len() == 0 && message@
                        == "output format is required for offline artifact path"@
                },
            },
    {
        let (safe_id, safe_format) = Self::artifact_name(job_id, output_format);
        if safe_id.unicode_len() == 0 {
            return Err(AppError::invalid_settings(String::from_str("job id is required for offline artifact path")));
        }
        if safe_format.unicode_len() == 0 {
            return Err(
                AppError::invalid_settings(String::from_str("output format is required for offline artifact path")),
            );
        }
        let file = concat3(safe_id.as_str(), ".", safe_format.as_str());
        Ok(
            OfflineArtifactPath {
                job_id: String::from_str(job_id),
                path: join_path(self.offline_exports_dir.as_str(), file.as_str()),
            },
        )
    }

    /// `<voice design artifacts>/<draft>.<format>`, both made safe; an id or
    /// format with nothing safe left is an invalid setting.
    pub fn voice_design_artifact_path(&self, draft_id: &str, output_format: &str) -> (r: Result<
        VoiceDesignArtifactPath,
        AppError,
    >)
        ensures
            match r {
                Ok(a) => segment_seq(draft_id@).len() > 0 && segment_seq(trim_start_char(output_format@, '.')).len()
                    > 0 && a.draft_id@ == draft_id@ && a.path@ == path_join(
                    self.voice_design_artifacts_dir@,
                    artifact_file(draft_id@, output_format@),
                ),
                Err(e) => e matches AppError::InvalidSettings { message } && if segment_seq(draft_id@).len() == 0 {
                    message@ == "draft id is required for voice design artifact path"@
                } else {
                    segment_seq(trim_start_char(output_format@, '.')).len() == 0 && message@
                        == "output format is required for voice design artifact path"@
                },
            },
    {
        let (safe_id, safe_format) = Self::artifact_name(draft_id, output_format);
        if safe_id.unicode_len() == 0 {
            return Err(
                AppError::invalid_settings(String::from_str("draft id is required for voice design artifact path")),
            );
        }
        if safe_format.unicode_len() == 0 {
            return Err(
                AppError::invalid_settings(
                    String::from_str("output format is required for voice design artifact path"),
                ),
            );
        }
        let file = concat3(safe_id.as_str(), ".", safe_format.as_str());
        Ok(
            VoiceDesignArtifactPath {
                draft_id: String::from_str(draft_id),
                path: join_path(self.voice_design_artifacts_dir.as_str(), file.as_str()),
            },
        )
    }
}

} // verus!
