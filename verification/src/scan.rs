//! Scanning of generated Markdown documents for module names.

use crate::error::UploadError;
use crate::text::{
    after_last, chars_of, contains, contains_text, ends_with, has_prefix, has_suffix,
    last_piece, lemma_find, lemma_find_is, lemma_first_separator_is, occurs_at, pieces, split,
    split_at, starts_with, string_of, texts,
};
use vstd::prelude::*;

verus! {

/// An entry of the documentation directory.
#[derive(Debug, Clone, PartialEq, Eq)]
pub struct DocFile {
    /// The name of the file inside the directory.
    pub name: String,
    /// The text of the file, or `None` when it could not be read.
    pub content: Option<String>,
}

/// One document of the upload form.
#[derive(Debug, Clone, PartialEq, Eq)]
pub struct UploadPart {
    /// The name under which the document is uploaded.
    pub file_name: String,
    /// The text of the document, as it was read.
    pub content: String,
}

/// What a scan of the documentation directory found.
#[derive(Debug, Clone, PartialEq, Eq)]
pub struct Scan {
    /// The module names, in the order in which the files were met.
    pub module_names: Vec<String>,
    /// The documents to upload, one for each Markdown file, in that order.
    pub parts: Vec<UploadPart>,
}

/// The file name has the extension `md`: it ends in `.md` and has something
/// before that.
pub open spec fn is_markdown_name(name: Seq<char>) -> bool {
    name.len() > ".md"@.len() && has_suffix(name, ".md"@)
}

/// The line is a module heading.
pub open spec fn is_heading(line: Seq<char>) -> bool {
    has_prefix(line, "# Module"@)
}

/// The first module heading among `lines`, if there is one.
pub open spec fn first_heading(lines: Seq<Seq<char>>) -> Option<Seq<char>>
    decreases lines.len(),
{
    if lines.len() == 0 {
        None
    } else if is_heading(lines[0]) {
        Some(lines[0])
    } else {
        first_heading(lines.skip(1))
    }
}

/// The module names that `tokens` give, in order: each token that holds `::`
/// gives what follows its last `::`.
pub open spec fn named_modules(tokens: Seq<Seq<char>>) -> Seq<Seq<char>>
    decreases tokens.len(),
{
    if tokens.len() == 0 {
        Seq::empty()
    } else if contains_text(tokens.last(), "::"@) {
        named_modules(tokens.drop_last()).push(after_last(tokens.last(), "::"@))
    } else {
        named_modules(tokens.drop_last())
    }
}

/// The module names that a document declares: those of the backtick-delimited
/// tokens of its first module heading. Later headings are not read.
pub open spec fn file_modules(content: Seq<char>) -> Seq<Seq<char>> {
    match first_heading(split(content, '\n', '\n')) {
        Some(line) => named_modules(split(line, '`', '`')),
        None => Seq::empty(),
    }
}

/// What the module names add to the name of an uploaded document: `+`, the
/// name and `.md`, once for each module.
pub open spec fn module_suffix(modules: Seq<Seq<char>>) -> Seq<char>
    decreases modules.len(),
{
    if modules.len() == 0 {
        Seq::empty()
    } else {
        module_suffix(modules.drop_last()) + "+"@ + modules.last() + ".md"@
    }
}

/// The name under which a document of the package is uploaded.
pub open spec fn upload_name(package: Seq<char>, content: Seq<char>) -> Seq<char> {
    package + module_suffix(file_modules(content))
}

/// The entry is a Markdown file.
pub open spec fn is_document(file: DocFile) -> bool {
    is_markdown_name(file.name@)
}

/// Every Markdown file among `files` could be read.
pub open spec fn all_readable(files: Seq<DocFile>) -> bool {
    forall|i: int|
        0 <= i < files.len() && is_document(#[trigger] files[i]) ==> files[i].content is Some
}

/// The module names of the Markdown files among `files`, in order.
pub open spec fn scanned_modules(files: Seq<DocFile>) -> Seq<Seq<char>>
    decreases files.len(),
{
    if files.len() == 0 {
        Seq::empty()
    } else {
        let file = files.last();
        if is_document(file) && file.content is Some {
            scanned_modules(files.drop_last()) + file_modules(file.content->0@)
        } else {
            scanned_modules(files.drop_last())
        }
    }
}

/// The uploaded name and the text of each Markdown file among `files`, in
/// order.
pub open spec fn scanned_parts(package: Seq<char>, files: Seq<DocFile>) -> Seq<
    (Seq<char>, Seq<char>),
>
    decreases files.len(),
{
    if files.len() == 0 {
        Seq::empty()
    } else {
        let file = files.last();
        if is_document(file) && file.content is Some {
            scanned_parts(package, files.drop_last()).push(
                (upload_name(package, file.content->0@), file.content->0@),
            )
        } else {
            scanned_parts(package, files.drop_last())
        }
    }
}

/// The uploaded name and the text of each part.
pub open spec fn part_texts(parts: Seq<UploadPart>) -> Seq<(Seq<char>, Seq<char>)> {
    Seq::new(parts.len(), |i: int| (parts[i].file_name@, parts[i].content@))
}

/// `first_heading` is the line at `k` when no line before it is a heading,
/// and `None` when `k` is the end and no line is.
proof fn lemma_first_heading(lines: Seq<Seq<char>>, k: int)
    requires
        0 <= k <= lines.len(),
        forall|j: int| 0 <= j < k ==> !is_heading(#[trigger] lines[j]),
        k < lines.len() ==> is_heading(lines[k]),
    ensures
        first_heading(lines) == if k < lines.len() {
            Some(lines[k])
        } else {
            None
        },
    decreases k,
{
    if k > 0 {
        let rest = lines.skip(1);
        assert(!is_heading(lines[0]));
        assert forall|j: int| 0 <= j < k - 1 implies !is_heading(#[trigger] rest[j]) by {
            assert(rest[j] == lines[j + 1]);
        }
        lemma_first_heading(rest, k - 1);
    }
}

/// Module names keep the order in which the files are met: scanning one
/// list of files after another gives the names of the first list, then those
/// of the second.
pub proof fn lemma_scan_in_order(first: Seq<DocFile>, second: Seq<DocFile>)
    ensures
        scanned_modules(first + second) == scanned_modules(first) + scanned_modules(second),
    decreases second.len(),
{
    if second.len() == 0 {
        assert(first + second == first);
    } else {
        let all = first + second;
        assert(all.drop_last() == first + second.drop_last());
        assert(all.last() == second.last());
        lemma_scan_in_order(first, second.drop_last());
    }
}

/// The heading that introduces the module `name` at `address`.
pub open spec fn module_heading(address: Seq<char>, name: Seq<char>) -> Seq<char> {
    "# Module `"@ + address + "::"@ + name + "`"@
}

/// The text holds no colon, no backtick and no line break.
pub open spec fn is_plain(s: Seq<char>) -> bool {
    forall|i: int| 0 <= i < s.len() ==> s[i] != ':' && s[i] != '`' && s[i] != '\n'
}

/// A text without a colon holds no `::` and is what follows its last `::`.
proof fn lemma_without_colon(s: Seq<char>)
    requires
        forall|i: int| 0 <= i < s.len() ==> s[i] != ':',
    ensures
        !contains_text(s, "::"@),
        after_last(s, "::"@) == s,
{
    reveal_strlit("::");
    let p = "::"@;
    assert forall|i: int| !occurs_at(s, p, i) by {
        if occurs_at(s, p, i) {
            assert(s.subrange(i, i + 2)[0] == p[0]);
        }
    }
    lemma_find(s, p);
}

/// A document that starts with the heading of a module, alone on its line,
/// declares that module and no other: what the scanner reads from a heading
/// is the name that the heading was written for.
pub proof fn lemma_heading_round_trip(address: Seq<char>, name: Seq<char>, rest: Seq<char>)
    requires
        is_plain(address),
        is_plain(name),
        rest.len() == 0 || rest[0] == '\n',
    ensures
        file_modules(module_heading(address, name) + rest) == seq![name],
{
    reveal_strlit("# Module `");
    reveal_strlit("# Module");
    reveal_strlit("::");
    reveal_strlit("`");
    let open = "# Module `"@;
    let sep = "::"@;
    let heading = module_heading(address, name);
    let content = heading + rest;
    let path = address + sep + name;
    assert(heading == open + path + "`"@);
    assert(heading.len() == 10 + path.len() + 1);

    // The heading is the first line of the document.
    assert forall|j: int| 0 <= j < heading.len() implies content[j] != '\n' by {
        assert(content[j] == heading[j]);
        if j >= 10 && j < 10 + path.len() {
            assert(heading[j] == path[j - 10]);
        }
    }
    lemma_first_separator_is(content, '\n', '\n', heading.len() as int);
    assert(content.take(heading.len() as int) == heading);
    let lines = split(content, '\n', '\n');
    assert(lines[0] == heading);
    assert(heading.take(8) == "# Module"@);
    assert(first_heading(lines) == Some(heading));

    // Its tokens are the text before the path, the path, and nothing.
    let first = open.take(9);
    assert forall|j: int| 0 <= j < 9 implies heading[j] != '`' by {
        assert(heading[j] == open[j]);
    }
    assert(heading[9] == '`');
    lemma_first_separator_is(heading, '`', '`', 9);
    assert(heading.take(9) == first);
    let tail = path + "`"@;
    assert(heading.skip(10) == tail);
    assert forall|j: int| 0 <= j < path.len() implies tail[j] != '`' by {
        assert(tail[j] == path[j]);
    }
    assert(tail[path.len() as int] == '`');
    lemma_first_separator_is(tail, '`', '`', path.len() as int);
    assert(tail.take(path.len() as int) == path);
    let empty = Seq::<char>::empty();
    assert(tail.skip(path.len() as int + 1) == empty);
    assert(split(empty, '`', '`') == seq![empty]);
    assert(split(tail, '`', '`') == seq![path] + seq![empty]);
    let tokens = split(heading, '`', '`');
    assert(tokens == seq![first] + (seq![path] + seq![empty]));
    assert(tokens == seq![first, path, empty]);

    // Only the path holds `::`, and the name follows it.
    lemma_without_colon(empty);
    lemma_without_colon(first);
    assert(occurs_at(path, sep, address.len() as int)) by {
        assert(path.subrange(address.len() as int, address.len() as int + 2) == sep);
    }
    assert forall|j: int| 0 <= j < address.len() implies !occurs_at(path, sep, j) by {
        if occurs_at(path, sep, j) {
            assert(path.subrange(j, j + 2)[0] == sep[0]);
            assert(path[j] == address[j]);
        }
    }
    lemma_find_is(path, sep, address.len() as int);
    assert(path.skip(address.len() as int + 2) == name);
    lemma_without_colon(name);
    assert(after_last(path, sep) == name);
    assert(tokens.drop_last() == seq![first, path]);
    assert(tokens.drop_last().drop_last() == seq![first]);
    assert(seq![first].drop_last() == Seq::<Seq<char>>::empty());
    assert(named_modules(Seq::<Seq<char>>::empty()) == Seq::<Seq<char>>::empty());
    assert(seq![first].last() == first);
    assert(named_modules(seq![first]) == Seq::<Seq<char>>::empty());
    assert(named_modules(seq![first, path]) == seq![name]);
    assert(named_modules(tokens) == seq![name]);
}

/// Tells whether a file name has the extension `md`.
pub fn has_markdown_extension(name: &str) -> (b: bool)
    ensures
        b == is_markdown_name(name@),
{
    let chars = chars_of(name);
    let suffix = chars_of(".md");
    chars.len() > suffix.len() && ends_with(&chars, &suffix)
}

/// Returns the module names that the tokens of a heading give.
fn modules_of_tokens(tokens: &Vec<Vec<char>>) -> (out: Vec<Vec<char>>)
    ensures
        pieces(out@) == named_modules(pieces(tokens@)),
{
    let separator = chars_of("::");
    let mut out: Vec<Vec<char>> = Vec::new();
    let mut i: usize = 0;
    while i < tokens.len()
        invariant
            i <= tokens.len(),
            separator@ == "::"@,
            pieces(out@) == named_modules(pieces(tokens@).take(i as int)),
        decreases tokens.len() - i,
    {
        let token = &tokens[i];
        proof {
            let next = pieces(tokens@).take(i + 1);
            assert(next.drop_last() == pieces(tokens@).take(i as int));
            assert(next.last() == token@);
        }
        if contains(token, &separator) {
            let name = last_piece(token, &separator);
            proof {
                assert(pieces(out@.push(name)) == pieces(out@).push(name@));
            }
            out.push(name);
        }
        i += 1;
    }
    proof {
        assert(pieces(tokens@).take(tokens.len() as int) == pieces(tokens@));
    }
    out
}

/// Returns the module names that a document declares.
fn modules_of_document(content: &Vec<char>) -> (out: Vec<Vec<char>>)
    ensures
        pieces(out@) == file_modules(content@),
{
    let lines = split_at(content, '\n', '\n');
    let heading = chars_of("# Module");
    let mut i: usize = 0;
    while i < lines.len()
        invariant
            i <= lines.len(),
            heading@ == "# Module"@,
            pieces(lines@) == split(content@, '\n', '\n'),
            forall|j: int| 0 <= j < i ==> !is_heading(#[trigger] pieces(lines@)[j]),
        decreases lines.len() - i,
    {
        if starts_with(&lines[i], &heading) {
            let tokens = split_at(&lines[i], '`', '`');
            proof {
                assert(pieces(lines@)[i as int] == lines[i as int]@);
                lemma_first_heading(pieces(lines@), i as int);
            }
            return modules_of_tokens(&tokens);
        }
        proof {
            assert(pieces(lines@)[i as int] == lines[i as int]@);
        }
        i += 1;
    }
    proof {
        lemma_first_heading(pieces(lines@), lines.len() as int);
    }
    let out: Vec<Vec<char>> = Vec::new();
    proof {
        assert(pieces(out@) == Seq::<Seq<char>>::empty());
    }
    out
}

/// Appends the characters of `chars` to `s`.
fn push_chars(s: &mut String, chars: &Vec<char>)
    ensures
        final(s)@ == old(s)@ + chars@,
{
    let mut i: usize = 0;
    while i < chars.len()
        invariant
            i <= chars.len(),
            s@ == old(s)@ + chars@.take(i as int),
        decreases chars.len() - i,
    {
        s.push(chars[i]);
        i += 1;
    }
    proof {
        assert(chars@.take(chars.len() as int) == chars@);
    }
}

/// Reads the module names that a document declares.
///
/// Each name is appended to `module_name_vec`, and `+`, the name and `.md`
/// are appended to `filename`. Only the first module heading of the document
/// is read; a document without one changes nothing.
pub fn read_file_and_module_name(
    filename: &mut String,
    module_name_vec: &mut Vec<String>,
    md_file: &str,
)
    ensures
        final(filename)@ == old(filename)@ + module_suffix(file_modules(md_file@)),
        texts(final(module_name_vec)@) == texts(old(module_name_vec)@) + file_modules(md_file@),
{
    let content = chars_of(md_file);
    let modules = modules_of_document(&content);
    let plus = chars_of("+");
    let extension = chars_of(".md");
    let mut i: usize = 0;
    while i < modules.len()
        invariant
            i <= modules.len(),
            plus@ == "+"@,
            extension@ == ".md"@,
            pieces(modules@) == file_modules(md_file@),
            filename@ == old(filename)@ + module_suffix(pieces(modules@).take(i as int)),
            texts(module_name_vec@) == texts(old(module_name_vec)@) + pieces(modules@).take(
                i as int,
            ),
        decreases modules.len() - i,
    {
        let name = string_of(&modules[i]);
        proof {
            let next = pieces(modules@).take(i + 1);
            assert(next.drop_last() == pieces(modules@).take(i as int));
            assert(next.last() == name@);
            assert(texts(module_name_vec@.push(name)) == texts(module_name_vec@).push(name@));
            assert(next == pieces(modules@).take(i as int).push(name@));
        }
        push_chars(filename, &plus);
        push_chars(filename, &modules[i]);
        push_chars(filename, &extension);
        module_name_vec.push(name);
        i += 1;
    }
    proof {
        assert(pieces(modules@).take(modules.len() as int) == pieces(modules@));
    }
}

/// Scans the entries of the documentation directory.
///
/// Entries whose name does not have the extension `md` are passed over. Each
/// Markdown file gives one upload part, named after the package and the
/// modules that the file declares, and adds those modules to the list of
/// module names. The scan fails with `DocFileUnreadable` when a Markdown
/// file could not be read.
pub fn scan_documents(package_name: &str, files: &Vec<DocFile>) -> (r: Result<Scan, UploadError>)
    ensures
        r is Ok <==> all_readable(files@),
        r matches Err(e) ==> e == UploadError::DocFileUnreadable,
        r matches Ok(scan) ==> {
            &&& texts(scan.module_names@) == scanned_modules(files@)
            &&& part_texts(scan.parts@) == scanned_parts(package_name@, files@)
        },
{
    let mut module_names: Vec<String> = Vec::new();
    let mut parts: Vec<UploadPart> = Vec::new();
    let mut i: usize = 0;
    while i < files.len()
        invariant
            i <= files.len(),
            all_readable(files@.take(i as int)),
            texts(module_names@) == scanned_modules(files@.take(i as int)),
            part_texts(parts@) == scanned_parts(package_name@, files@.take(i as int)),
        decreases files.len() - i,
    {
        let file = &files[i];
        let ghost seen = files@.take(i as int);
        let ghost next = files@.take(i + 1);
        proof {
            assert(next.drop_last() == seen);
            assert(next.last() == *file);
        }
        if has_markdown_extension(file.name.as_str()) {
            match &file.content {
                None => {
                    proof {
                        assert(is_document(files@[i as int]));
                    }
                    return Err(UploadError::DocFileUnreadable);
                },
                Some(content) => {
                    let mut file_name = package_name.to_owned();
                    read_file_and_module_name(&mut file_name, &mut module_names, content.as_str());
                    let part = UploadPart { file_name, content: content.clone() };
                    proof {
                        assert(part_texts(parts@.push(part)) == part_texts(parts@).push(
                            (part.file_name@, part.content@),
                        ));
                    }
                    parts.push(part);
                },
            }
        }
        proof {
            assert forall|j: int| 0 <= j < next.len() && is_document(
                #[trigger] next[j],
            ) implies next[j].content is Some by {
                if j < i {
                    assert(seen[j] == next[j]);
                }
            }
        }
        i += 1;
    }
    proof {
        assert(files@.take(files.len() as int) == files@);
    }
    Ok(Scan { module_names, parts })
}

} // verus!
