//! Choosing the protocol files to compile, and writing the module tree of the generated code.
use vstd::prelude::*;
use vstd::string::{StringExecFns, StringSliceAdditionalSpecFns};

use crate::text::{contains_bytes, has_infix, lemma_encode_utf8_concat, occurs_at, utf8_of};

verus! {

/// The path parts that mark a file of the googleapis archive as one of the APIs this library
/// compiles: the Vertex AI platform, the common API definitions, the Gemini API and the common
/// types.
pub open spec fn included(name: Seq<char>) -> bool {
    has_infix(utf8_of(name), "google/cloud/aiplatform".spec_bytes()) || has_infix(
        utf8_of(name),
        "google/api".spec_bytes(),
    ) || has_infix(utf8_of(name), "google/ai/generativelanguage".spec_bytes()) || has_infix(
        utf8_of(name),
        "google/type".spec_bytes(),
    )
}

/// A name that holds `marker` anywhere is included.
proof fn lemma_marker_included(pre: Seq<char>, marker: Seq<char>, post: Seq<char>)
    ensures
        has_infix(utf8_of(pre + marker + post), utf8_of(marker)),
{
    lemma_encode_utf8_concat(pre, marker);
    lemma_encode_utf8_concat(pre + marker, post);
    let b = utf8_of(pre + marker + post);
    let at = utf8_of(pre).len() as int;
    assert(b =~= utf8_of(pre) + utf8_of(marker) + utf8_of(post));
    assert(b.subrange(at, at + utf8_of(marker).len()) =~= utf8_of(marker));
    assert(occurs_at(b, utf8_of(marker), at));
}

/// Every file whose path holds one of the four API directories is kept, wherever in the path
/// the directory stands: the Vertex AI platform, the common API definitions, the Gemini API and
/// the common types.
pub proof fn lemma_api_directories_included(pre: Seq<char>, post: Seq<char>)
    ensures
        included(pre + "google/cloud/aiplatform"@ + post),
        included(pre + "google/api"@ + post),
        included(pre + "google/ai/generativelanguage"@ + post),
        included(pre + "google/type"@ + post),
{
    lemma_marker_included(pre, "google/cloud/aiplatform"@, post);
    lemma_marker_included(pre, "google/api"@, post);
    lemma_marker_included(pre, "google/ai/generativelanguage"@, post);
    lemma_marker_included(pre, "google/type"@, post);
}

/// Whether a file of the googleapis archive belongs to the APIs this library compiles.
pub fn should_include(filename: &str) -> (r: bool)
    ensures
        r == included(filename@),
{
    let b = filename.as_bytes();
    contains_bytes(b, "google/cloud/aiplatform".as_bytes()) || contains_bytes(b, "google/api".as_bytes())
        || contains_bytes(b, "google/ai/generativelanguage".as_bytes()) || contains_bytes(
        b,
        "google/type".as_bytes(),
    )
}

/// `zip::result::ZipError`, carried through as it is.
#[verifier::external_type_specification]
#[verifier::external_body]
pub struct ExZipError(zip::result::ZipError);

/// An entry of a zip archive: its name, and its uncompressed bytes (`None` for a directory).
#[derive(Debug)]
pub struct ZipEntry {
    pub name: String,
    pub data: Option<Vec<u8>>,
}

/// An entry as plain values: its name, and its bytes where it is a file.
pub open spec fn entry_view(e: ZipEntry) -> (Seq<char>, Option<Seq<u8>>) {
    (
        e.name@,
        match e.data {
            Some(d) => Some(d@),
            None => None,
        },
    )
}

/// The entries that the `zip` crate reads out of an archive, in the archive's order, or `None`
/// where it refuses the archive.
pub uninterp spec fn zip_entries(archive: Seq<u8>) -> Option<Seq<(Seq<char>, Option<Seq<u8>>)>>;

/// Calls `zip::ZipArchive::new` on the bytes, then for each index `by_index`, `ZipFile::name`,
/// `ZipFile::is_dir` and, for a file, `Read::read_to_end`, which decompresses it. The entries
/// are a function of the archive's bytes; which archives are refused is left unsaid.
#[verifier::external_body]
fn read_zip_entries(archive: &[u8]) -> (r: Result<Vec<ZipEntry>, zip::result::ZipError>)
    ensures
        r is Ok <==> zip_entries(archive@) is Some,
        r matches Ok(es) ==> es@.map_values(|e: ZipEntry| entry_view(e)) == zip_entries(archive@)->0,
{
    let mut zip = zip::ZipArchive::new(std::io::Cursor::new(archive))?;
    let mut out = Vec::new();
    for i in 0..zip.len() {
        let mut f = zip.by_index(i)?;
        let data = if f.is_dir() {
            None
        } else {
            let mut d = Vec::new();
            std::io::Read::read_to_end(&mut f, &mut d)?;
            Some(d)
        };
        out.push(ZipEntry { name: f.name().to_string(), data });
    }
    Ok(out)
}

/// An entry that `should_include` keeps.
pub open spec fn entry_included(e: (Seq<char>, Option<Seq<u8>>)) -> bool {
    included(e.0)
}

/// The entries of the archive that belong to the compiled APIs, in the archive's order, or the
/// error of the `zip` crate where it refuses the archive.
pub fn included_entries(archive: &[u8]) -> (r: Result<Vec<ZipEntry>, zip::result::ZipError>)
    ensures
        r is Ok <==> zip_entries(archive@) is Some,
        r matches Ok(es) ==> es@.map_values(|e: ZipEntry| entry_view(e)) == zip_entries(
            archive@,
        )->0.filter(|e: (Seq<char>, Option<Seq<u8>>)| entry_included(e)),
{
    let mut es = match read_zip_entries(archive) {
        Ok(es) => es,
        Err(e) => {
            return Err(e);
        },
    };
    let ghost orig = es@;
    let ghost views = zip_entries(archive@)->0;
    let ghost n = es@.len();
    let ghost pred = |e: (Seq<char>, Option<Seq<u8>>)| entry_included(e);
    assert(orig.map_values(|e: ZipEntry| entry_view(e)) == views);
    // The entries, last first, so that popping gives them in the archive's order.
    let mut rev: Vec<ZipEntry> = Vec::new();
    while es.len() > 0
        invariant
            n == orig.len(),
            es@ =~= orig.take(es@.len() as int),
            rev@.len() + es@.len() == n,
            forall|j: int| 0 <= j < rev@.len() ==> #[trigger] rev@[j] == orig[n - 1 - j],
        decreases es@.len(),
    {
        let e = es.pop().unwrap();
        rev.push(e);
    }
    let mut out: Vec<ZipEntry> = Vec::new();
    let ghost mut k: int = 0;
    assert(views.take(0) =~= Seq::<(Seq<char>, Option<Seq<u8>>)>::empty());
    proof {
        reveal(Seq::filter);
    }
    assert(out@.map_values(|e: ZipEntry| entry_view(e)) =~= views.take(0).filter(pred));
    while rev.len() > 0
        invariant
            n == orig.len(),
            views.len() == n,
            forall|j: int| 0 <= j < n ==> #[trigger] views[j] == entry_view(orig[j]),
            0 <= k <= n,
            rev@.len() == n - k,
            forall|j: int| 0 <= j < rev@.len() ==> #[trigger] rev@[j] == orig[n - 1 - j],
            out@.map_values(|e: ZipEntry| entry_view(e)) == views.take(k).filter(pred),
            pred == (|e: (Seq<char>, Option<Seq<u8>>)| entry_included(e)),
        decreases rev@.len(),
    {
        let e = rev.pop().unwrap();
        assert(e == orig[k]);
        let keep = should_include(e.name.as_str());
        let ghost before = out@;
        let ghost ev = entry_view(e);
        proof {
            reveal(Seq::filter);
            assert(views.take(k + 1).drop_last() =~= views.take(k));
            assert(views.take(k + 1).last() == entry_view(e));
        }
        if keep {
            out.push(e);
            assert(out@.map_values(|e: ZipEntry| entry_view(e)) =~= before.map_values(
                |e: ZipEntry| entry_view(e),
            ).push(ev));
        }
        proof {
            k = k + 1;
        }
    }
    assert(views.take(n as int) =~= views);
    Ok(out)
}

/// A module of the generated code: its name, the generated file whose text it takes in, and
/// its submodules by name, each name once (`distinct_names` of `children`, at every level).
pub struct LibTree {
    pub name: String,
    pub generated_file: Option<String>,
    pub children: Vec<(String, LibTree)>,
}

/// The line that takes in a generated file from the build output directory, with the macro
/// `file_macro` (the standard one that pastes a file's text).
pub open spec fn file_line(file_macro: Seq<char>, generated_file: Option<String>) -> Seq<char> {
    match generated_file {
        Some(txt) => file_macro + "!(concat!(env!(\"OUT_DIR\"), \""@ + txt@ + "\"));"@,
        None => Seq::empty(),
    }
}

/// The source text of a module tree.
pub open spec fn rendered(file_macro: Seq<char>, t: LibTree) -> Seq<char>
    decreases t, 1int,
{
    "pub mod "@ + t.name@ + " {\n            "@ + file_line(file_macro, t.generated_file) + "\n            "@
        + rendered_children(file_macro, t.children@) + "\n            }"@
}

/// The source texts of the submodules, one per line.
pub open spec fn rendered_children(file_macro: Seq<char>, cs: Seq<(String, LibTree)>) -> Seq<char>
    decreases cs, 0int,
{
    if cs.len() == 0 {
        Seq::empty()
    } else if cs.len() == 1 {
        rendered(file_macro, cs[0].1)
    } else {
        rendered_children(file_macro, cs.drop_last()) + "\n"@ + rendered(file_macro, cs.last().1)
    }
}

/// `needle` stands somewhere in `hay`, as a run of characters.
pub open spec fn contains_text(hay: Seq<char>, needle: Seq<char>) -> bool {
    exists|i: int| 0 <= i && i + needle.len() <= hay.len() && #[trigger] hay.subrange(i, i + needle.len()) == needle
}

/// A text stands in itself.
proof fn lemma_contains_self(x: Seq<char>)
    ensures
        contains_text(x, x),
{
    assert(x.subrange(0int, 0int + x.len()) =~= x);
}

/// A run of characters in `x` is still there with text around it.
proof fn lemma_contains_in_concat(a: Seq<char>, x: Seq<char>, b: Seq<char>, needle: Seq<char>)
    requires
        contains_text(x, needle),
    ensures
        contains_text(a + x + b, needle),
{
    let i = choose|i: int| 0 <= i && i + needle.len() <= x.len() && #[trigger] x.subrange(i, i + needle.len()) == needle;
    let h = a + x + b;
    let j = a.len() + i;
    assert(h.subrange(j, j + needle.len()) =~= x.subrange(i, i + needle.len()));
}

/// Each submodule's text stands in the text of the submodule list.
proof fn lemma_children_rendered(file_macro: Seq<char>, cs: Seq<(String, LibTree)>, k: int)
    requires
        0 <= k < cs.len(),
    ensures
        contains_text(rendered_children(file_macro, cs), rendered(file_macro, cs[k].1)),
    decreases cs.len(),
{
    let r = rendered(file_macro, cs[k].1);
    if cs.len() == 1 {
        lemma_contains_self(r);
        lemma_contains_in_concat(Seq::empty(), r, Seq::empty(), r);
        assert(Seq::<char>::empty() + r + Seq::<char>::empty() =~= r);
    } else if k == cs.len() - 1 {
        let front = rendered_children(file_macro, cs.drop_last()) + "\n"@;
        lemma_contains_self(r);
        lemma_contains_in_concat(front, r, Seq::empty(), r);
        assert(front + r + Seq::<char>::empty() =~= rendered_children(file_macro, cs));
    } else {
        assert(cs.drop_last()[k] == cs[k]);
        lemma_children_rendered(file_macro, cs.drop_last(), k);
        let back = "\n"@ + rendered(file_macro, cs.last().1);
        lemma_contains_in_concat(Seq::empty(), rendered_children(file_macro, cs.drop_last()), back, r);
        assert(Seq::<char>::empty() + rendered_children(file_macro, cs.drop_last()) + back
            =~= rendered_children(file_macro, cs));
    }
}

/// The text of a module: it opens with `pub mod <name> {`, closes with `}`, takes in its
/// generated file with a `<macro>!(concat!(env!("OUT_DIR"), "<file>"));` line, and holds the
/// text of every submodule.
pub proof fn lemma_module_text(file_macro: Seq<char>, t: LibTree)
    ensures
        rendered(file_macro, t).take(("pub mod "@ + t.name@ + " {"@).len() as int) == "pub mod "@
            + t.name@ + " {"@,
        rendered(file_macro, t).last() == '}',
        t.generated_file matches Some(f) ==> contains_text(
            rendered(file_macro, t),
            file_macro + "!(concat!(env!(\"OUT_DIR\"), \""@ + f@ + "\"));"@,
        ),
        forall|k: int|
            0 <= k < t.children@.len() ==> contains_text(
                rendered(file_macro, t),
                rendered(file_macro, #[trigger] t.children@[k].1),
            ),
{
    let head = "pub mod "@ + t.name@ + " {\n            "@;
    let line = file_line(file_macro, t.generated_file);
    let kids = rendered_children(file_macro, t.children@);
    let r = rendered(file_macro, t);
    assert(r == head + line + "\n            "@ + kids + "\n            }"@);
    let opening = "pub mod "@ + t.name@ + " {"@;
    reveal_strlit(" {\n            ");
    reveal_strlit(" {");
    reveal_strlit("\n            ");
    reveal_strlit("\n            }");
    assert(" {\n            "@ =~= " {"@ + "\n            "@);
    let tail = "\n            "@ + line + "\n            "@ + kids + "\n            }"@;
    assert(r =~= opening + tail);
    assert(r.take(opening.len() as int) =~= opening);
    assert(r.last() == "\n            }"@.last());
    if let Some(f) = t.generated_file {
        lemma_contains_self(line);
        lemma_contains_in_concat(head, line, "\n            "@ + kids + "\n            }"@, line);
        assert(head + line + ("\n            "@ + kids + "\n            }"@) =~= r);
    }
    assert forall|k: int| 0 <= k < t.children@.len() implies contains_text(
        r,
        rendered(file_macro, #[trigger] t.children@[k].1),
    ) by {
        lemma_children_rendered(file_macro, t.children@, k);
        lemma_contains_in_concat(head + line + "\n            "@, kids, "\n            }"@, rendered(file_macro, t.children@[k].1));
    }
}

impl LibTree {
    /// The source text of the module tree; a generated file is taken in with `file_macro`.
    pub fn render(&self, file_macro: &str) -> (r: String)
        ensures
            r@ == rendered(file_macro@, *self),
        decreases self,
    {
        let mut line = String::new();
        if let Some(txt) = &self.generated_file {
            line.append(file_macro);
            line.append("!(concat!(env!(\"OUT_DIR\"), \"");
            line.append(txt.as_str());
            line.append("\"));");
        }
        let mut children = String::new();
        let mut i: usize = 0;
        while i < self.children.len()
            invariant
                i <= self.children@.len(),
                children@ == rendered_children(file_macro@, self.children@.take(i as int)),
            decreases self.children@.len() - i,
        {
            proof {
                assert(decreases_to!(*self => self.children));
                assert(decreases_to!(self.children => self.children@));
                assert(decreases_to!(self.children@ => self.children@[i as int]));
                assert(decreases_to!(self.children@[i as int] => self.children@[i as int].1));
            }
            let child = self.children[i].1.render(file_macro);
            if i > 0 {
                children.append("\n");
            }
            children.append(child.as_str());
            proof {
                let t = self.children@.take(i + 1);
                assert(t.drop_last() =~= self.children@.take(i as int));
                if i == 0 {
                    assert(Seq::<char>::empty() + child@ =~= child@);
                }
            }
            i = i + 1;
        }
        assert(self.children@.take(self.children@.len() as int) =~= self.children@);
        let mut out = String::from_str("pub mod ");
        out.append(self.name.as_str());
        out.append(" {\n            ");
        out.append(line.as_str());
        out.append("\n            ");
        out.append(children.as_str());
        out.append("\n            }");
        proof {
            if self.generated_file is None {
                assert(line@ =~= Seq::<char>::empty());
            }
        }
        out
    }
}

} // verus!
