//! Resolution of the repository URL from the listing of git remotes.

use crate::error::UploadError;
use crate::text::{
    chars_of, contains, contains_text, ends_with, has_prefix, has_suffix, lemma_split_nonempty,
    pieces, split, split_at, starts_with, string_of,
};
use vstd::prelude::*;

verus! {

/// The line names GitHub.
pub open spec fn mentions_github(line: Seq<char>) -> bool {
    contains_text(line, "github.com"@)
}

/// The fields of a remote line: what stands between tabs and spaces.
pub open spec fn line_fields(line: Seq<char>) -> Seq<Seq<char>> {
    split(line, '\t', ' ')
}

/// A remote line has a name, a URL and a direction.
pub open spec fn well_formed_line(line: Seq<char>) -> bool {
    line_fields(line).len() == 3
}

/// The HTTPS form of a remote URL. A URL that starts with `git@github.com`
/// loses everything up to its first colon, and every later colon, and gets
/// `https://github.com/` in front; any other URL stays as it is.
pub open spec fn https_form(url: Seq<char>) -> Seq<char> {
    if has_prefix(url, "git@github.com"@) {
        "https://github.com/"@ + split(url, ':', ':').skip(1).flatten()
    } else {
        url
    }
}

/// The URL without a trailing `.git`.
pub open spec fn without_git_suffix(url: Seq<char>) -> Seq<char> {
    if has_suffix(url, ".git"@) {
        url.take(url.len() - ".git"@.len())
    } else {
        url
    }
}

/// The repository URL that a well-formed remote line gives.
pub open spec fn line_url(line: Seq<char>) -> Seq<char> {
    without_git_suffix(https_form(line_fields(line)[1]))
}

/// Every line that names GitHub is well formed.
pub open spec fn all_well_formed(lines: Seq<Seq<char>>) -> bool {
    forall|i: int|
        0 <= i < lines.len() && mentions_github(#[trigger] lines[i]) ==> well_formed_line(
            lines[i],
        )
}

/// The URL of the last line that names GitHub; empty when no line does.
pub open spec fn repository_url(lines: Seq<Seq<char>>) -> Seq<char>
    decreases lines.len(),
{
    if lines.len() == 0 {
        Seq::empty()
    } else if mentions_github(lines.last()) {
        line_url(lines.last())
    } else {
        repository_url(lines.drop_last())
    }
}

/// What the listing of remotes resolves to. `succeeded` tells whether the
/// listing command exited with success, `output` is what it printed.
pub open spec fn resolution(succeeded: bool, output: Seq<char>) -> Result<Seq<char>, UploadError> {
    let lines = split(output, '\n', '\n');
    if !succeeded || output.len() == 0 {
        Err(UploadError::NotAGitRepository)
    } else if !all_well_formed(lines) {
        Err(UploadError::MalformedRemoteLine)
    } else {
        Ok(repository_url(lines))
    }
}

/// When no line names GitHub, the repository URL is empty and no line is
/// malformed.
pub proof fn lemma_no_github_line(lines: Seq<Seq<char>>)
    requires
        forall|i: int| 0 <= i < lines.len() ==> !mentions_github(#[trigger] lines[i]),
    ensures
        all_well_formed(lines),
        repository_url(lines) == Seq::<char>::empty(),
    decreases lines.len(),
{
    if lines.len() > 0 {
        let before = lines.drop_last();
        assert(!mentions_github(lines[lines.len() - 1]));
        assert forall|i: int| 0 <= i < before.len() implies !mentions_github(
            #[trigger] before[i],
        ) by {
            assert(before[i] == lines[i]);
        }
        lemma_no_github_line(before);
    }
}

/// Concatenates the pieces of `parts` from position `from` on.
fn concat_from(parts: &Vec<Vec<char>>, from: usize) -> (r: Vec<char>)
    requires
        from <= parts.len(),
    ensures
        r@ == pieces(parts@).skip(from as int).flatten(),
{
    let mut r: Vec<char> = Vec::new();
    let mut i: usize = from;
    while i < parts.len()
        invariant
            from <= i <= parts.len(),
            r@ == pieces(parts@).subrange(from as int, i as int).flatten(),
        decreases parts.len() - i,
    {
        let part = &parts[i];
        let ghost before = r@;
        let mut k: usize = 0;
        while k < part.len()
            invariant
                k <= part.len(),
                r@ == before + part@.take(k as int),
            decreases part.len() - k,
        {
            r.push(part[k]);
            k += 1;
        }
        proof {
            let all = pieces(parts@);
            assert(part@.take(part.len() as int) == part@);
            assert(all.subrange(from as int, i + 1) == all.subrange(from as int, i as int).push(
                part@,
            ));
            all.subrange(from as int, i as int).lemma_flatten_push(part@);
        }
        i += 1;
    }
    proof {
        let all = pieces(parts@);
        assert(all.subrange(from as int, parts.len() as int) == all.skip(from as int));
    }
    r
}

/// Turns a remote URL into its HTTPS form.
pub fn to_https(url: &Vec<char>) -> (r: Vec<char>)
    ensures
        r@ == https_form(url@),
{
    let ssh = chars_of("git@github.com");
    if starts_with(url, &ssh) {
        let parts = split_at(url, ':', ':');
        proof {
            lemma_split_nonempty(url@, ':', ':');
            assert(pieces(parts@).len() == parts.len());
        }
        let mut r = chars_of("https://github.com/");
        let mut rest = concat_from(&parts, 1);
        r.append(&mut rest);
        r
    } else {
        url.clone()
    }
}

/// Removes a trailing `.git` from a URL.
pub fn strip_git_suffix(url: Vec<char>) -> (r: Vec<char>)
    ensures
        r@ == without_git_suffix(url@),
{
    let suffix = chars_of(".git");
    if ends_with(&url, &suffix) {
        let mut url = url;
        url.truncate(url.len() - suffix.len());
        url
    } else {
        url
    }
}

/// Resolves the repository URL from the outcome of listing the git remotes.
///
/// Fails with `NotAGitRepository` when the listing failed or printed nothing,
/// and with `MalformedRemoteLine` when a line that names GitHub does not have
/// exactly three fields. Otherwise the last line that names GitHub gives the
/// URL, in HTTPS form and without a trailing `.git`; with no such line the
/// URL is empty.
pub fn resolve_repository_url(succeeded: bool, output: &str) -> (r: Result<String, UploadError>)
    ensures
        match r {
            Ok(url) => resolution(succeeded, output@) == Ok::<Seq<char>, UploadError>(url@),
            Err(e) => resolution(succeeded, output@) == Err::<Seq<char>, UploadError>(e),
        },
{
    let chars = chars_of(output);
    if !succeeded || chars.len() == 0 {
        return Err(UploadError::NotAGitRepository);
    }
    let lines = split_at(&chars, '\n', '\n');
    let github = chars_of("github.com");
    let mut url: Vec<char> = Vec::new();
    let mut i: usize = 0;
    while i < lines.len()
        invariant
            i <= lines.len(),
            succeeded,
            output@.len() > 0,
            github@ == "github.com"@,
            pieces(lines@) == split(output@, '\n', '\n'),
            all_well_formed(pieces(lines@).take(i as int)),
            url@ == repository_url(pieces(lines@).take(i as int)),
        decreases lines.len() - i,
    {
        let line = &lines[i];
        let ghost seen = pieces(lines@).take(i as int);
        let ghost next = pieces(lines@).take(i + 1);
        proof {
            assert(next.drop_last() == seen);
            assert(next.last() == line@);
        }
        if contains(line, &github) {
            let fields = split_at(line, '\t', ' ');
            if fields.len() != 3 {
                proof {
                    let all = pieces(lines@);
                    assert(all[i as int] == line@);
                    assert(pieces(fields@).len() == fields.len());
                    assert(mentions_github(all[i as int]) && !well_formed_line(all[i as int]));
                }
                return Err(UploadError::MalformedRemoteLine);
            }
            proof {
                assert(pieces(fields@).len() == fields.len());
                assert(pieces(fields@)[1] == fields[1]@);
            }
            url = strip_git_suffix(to_https(&fields[1]));
        }
        proof {
            assert forall|j: int| 0 <= j < next.len() && mentions_github(
                #[trigger] next[j],
            ) implies well_formed_line(next[j]) by {
                if j < i {
                    assert(seen[j] == next[j]);
                }
            }
        }
        i += 1;
    }
    proof {
        assert(pieces(lines@).take(lines.len() as int) == pieces(lines@));
    }
    Ok(string_of(&url))
}

} // verus!
