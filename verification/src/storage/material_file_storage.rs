//! What is recorded about a file imported as a material: where it is kept,
//! its SHA-256 fingerprint in lower-case hexadecimal and its MIME type,
//! guessed from the file-name extension.

use vstd::prelude::*;
use vstd::string::*;

use sha2::Digest;

use crate::text::{ascii_lower, chars_of, is_ascii_text, lowercase, push_char, str_eq, str_to_lowercase};

verus! {

/// The SHA-256 digest of some bytes.
pub uninterp spec fn sha256_of(data: Seq<u8>) -> Seq<u8>;

/// Calls `sha2::Sha256::digest`; the digest is named [`sha256_of`] and, as
/// the algorithm's output size, has 32 bytes.
#[verifier::external_body]
fn sha256_digest(data: &[u8]) -> (d: Vec<u8>)
    ensures
        d@ == sha256_of(data@),
        d@.len() == 32,
{
    sha2::Sha256::digest(data).to_vec()
}

pub open spec fn hex_digits() -> Seq<char> {
    "0123456789abcdef"@
}

/// The two lower-case hexadecimal digits of a byte.
pub open spec fn byte_hex(b: u8) -> Seq<char> {
    seq![hex_digits()[(b / 16) as int], hex_digits()[(b % 16) as int]]
}

/// Bytes written as lower-case hexadecimal, two digits each.
pub open spec fn lower_hex_spec(bytes: Seq<u8>) -> Seq<char>
    decreases bytes.len(),
{
    if bytes.len() == 0 {
        Seq::empty()
    } else {
        lower_hex_spec(bytes.drop_last()) + byte_hex(bytes.last())
    }
}

/// Writes bytes as lower-case hexadecimal.
pub fn lower_hex(bytes: &Vec<u8>) -> (s: String)
    ensures
        s@ == lower_hex_spec(bytes@),
{
    let digits = chars_of("0123456789abcdef");
    proof {
        reveal_strlit("0123456789abcdef");
    }
    assert(digits@.len() == 16);
    let mut out = String::new();
    let mut i: usize = 0;
    while i < bytes.len()
        invariant
            i <= bytes.len(),
            digits@ == hex_digits(),
            digits@.len() == 16,
            out@ == lower_hex_spec(bytes@.take(i as int)),
        decreases bytes.len() - i,
    {
        proof {
            assert(bytes@.take(i + 1).drop_last() =~= bytes@.take(i as int));
        }
        let b = bytes[i];
        let hi = digits[(b / 16) as usize];
        let lo = digits[(b % 16) as usize];
        push_char(&mut out, hi);
        push_char(&mut out, lo);
        proof {
            assert(out@ =~= lower_hex_spec(bytes@.take(i as int)) + byte_hex(b));
        }
        i = i + 1;
    }
    proof {
        assert(bytes@.take(bytes.len() as int) =~= bytes@);
    }
    out
}

/// The SHA-256 fingerprint of a file's content, as stored with a material.
pub fn sha256_hex(content: &[u8]) -> (s: String)
    ensures
        s@ == lower_hex_spec(sha256_of(content@)),
        s@.len() == 64,
{
    let digest = sha256_digest(content);
    let s = lower_hex(&digest);
    proof {
        lemma_lower_hex_len(digest@);
    }
    s
}

pub proof fn lemma_lower_hex_len(bytes: Seq<u8>)
    ensures
        lower_hex_spec(bytes).len() == 2 * bytes.len(),
    decreases bytes.len(),
{
    if bytes.len() > 0 {
        lemma_lower_hex_len(bytes.drop_last());
    }
}

/// Whether position `k` holds the last `.` of `name`.
pub open spec fn is_last_dot(name: Seq<char>, k: int) -> bool {
    0 <= k < name.len() && name[k] == '.' && forall|j: int| k < j < name.len() ==> name[j] != '.'
}

/// The extension of a file name, as `std::path::Path::extension` gives it:
/// the text after the last `.`, unless there is none or the only one starts
/// the name.
pub open spec fn extension_spec(name: Seq<char>) -> Option<Seq<char>> {
    if exists|k: int| is_last_dot(name, k) && k > 0 {
        let k = choose|k: int| is_last_dot(name, k);
        Some(name.subrange(k + 1, name.len() as int))
    } else {
        None
    }
}

/// The extension of a file name.
pub fn file_extension(name: &str) -> (r: Option<String>)
    ensures
        crate::error::opt_string_view(r) == extension_spec(name@),
{
    let chars = chars_of(name);
    let mut i: usize = chars.len();
    while i > 0
        invariant
            i <= chars.len(),
            chars@ == name@,
            forall|j: int| i <= j < chars.len() ==> chars@[j] != '.',
        decreases i,
    {
        if chars[i - 1] == '.' {
            let k = i - 1;
            proof {
                assert(is_last_dot(name@, k as int));
                assert forall|m: int| is_last_dot(name@, m) implies m == k by {
                    if m < k {
                        assert(name@[k as int] != '.');
                    }
                }
            }
            if k == 0 {
                return None;
            }
            let mut ext = String::new();
            let mut j: usize = i;
            while j < chars.len()
                invariant
                    i <= j <= chars.len(),
                    chars@ == name@,
                    ext@ == name@.subrange(i as int, j as int),
                decreases chars.len() - j,
            {
                push_char(&mut ext, chars[j]);
                proof {
                    assert(ext@ =~= name@.subrange(i as int, j + 1));
                }
                j = j + 1;
            }
            return Some(ext);
        }
        i = i - 1;
    }
    proof {
        assert forall|m: int| !is_last_dot(name@, m) by {
            if 0 <= m < name@.len() {
                assert(chars@[m] != '.');
            }
        }
    }
    None
}

/// The MIME type of a lower-case extension, for the known kinds of file.
pub open spec fn mime_for_extension(ext: Seq<char>) -> Option<Seq<char>> {
    if ext == "png"@ {
        Some("image/png"@)
    } else if ext == "jpg"@ || ext == "jpeg"@ {
        Some("image/jpeg"@)
    } else if ext == "pdf"@ {
        Some("application/pdf"@)
    } else if ext == "docx"@ {
        Some("application/vnd.openxmlformats-officedocument.wordprocessingml.document"@)
    } else if ext == "xlsx"@ {
        Some("application/vnd.openxmlformats-officedocument.spreadsheetml.sheet"@)
    } else if ext == "txt"@ {
        Some("text/plain"@)
    } else if ext == "csv"@ {
        Some("text/csv"@)
    } else if ext == "html"@ || ext == "htm"@ {
        Some("text/html"@)
    } else {
        None
    }
}

/// The MIME type guessed for a file name: from its lower-cased extension
/// (a name without extension counts as an empty one).
pub open spec fn guess_mime_spec(name: Seq<char>) -> Option<Seq<char>> {
    mime_for_extension(lowercase(extension_or_empty(name)))
}

/// The extension of a file name, empty when it has none.
pub open spec fn extension_or_empty(name: Seq<char>) -> Seq<char> {
    match extension_spec(name) {
        Some(e) => e,
        None => Seq::empty(),
    }
}

/// The MIME type of a lower-case extension, if it is a known kind of file.
pub fn mime_for_extension_text(ext: &str) -> (r: Option<&'static str>)
    ensures
        match r {
            Some(m) => mime_for_extension(ext@) == Some(m@),
            None => mime_for_extension(ext@) is None,
        },
{
    if str_eq(ext, "png") {
        Some("image/png")
    } else if str_eq(ext, "jpg") || str_eq(ext, "jpeg") {
        Some("image/jpeg")
    } else if str_eq(ext, "pdf") {
        Some("application/pdf")
    } else if str_eq(ext, "docx") {
        Some("application/vnd.openxmlformats-officedocument.wordprocessingml.document")
    } else if str_eq(ext, "xlsx") {
        Some("application/vnd.openxmlformats-officedocument.spreadsheetml.sheet")
    } else if str_eq(ext, "txt") {
        Some("text/plain")
    } else if str_eq(ext, "csv") {
        Some("text/csv")
    } else if str_eq(ext, "html") || str_eq(ext, "htm") {
        Some("text/html")
    } else {
        None
    }
}

/// Guesses the MIME type of a stored file from its name.
pub fn guess_mime_type(file_name: &str) -> (r: Option<String>)
    ensures
        crate::error::opt_string_view(r) == guess_mime_spec(file_name@),
        is_ascii_text(extension_or_empty(file_name@)) ==> crate::error::opt_string_view(r) == mime_for_extension(
            ascii_lower(extension_or_empty(file_name@)),
        ),
{
    let ext = match file_extension(file_name) {
        Some(e) => e,
        None => String::new(),
    };
    let lowered = str_to_lowercase(ext.as_str());
    match mime_for_extension_text(lowered.as_str()) {
        Some(m) => Some(m.to_owned()),
        None => None,
    }
}

/// The directories, under the application data directory, in which the
/// files of a material are kept.
pub fn material_storage_segments(case_id: &str, material_id: &str) -> (v: Vec<String>)
    ensures
        crate::text::string_views(v@) == seq!["storage"@, "cases"@, case_id@, "materials"@, material_id@],
{
    let v = vec!["storage".to_owned(), "cases".to_owned(), case_id.to_owned(), "materials".to_owned(), material_id.to_owned()];
    assert(crate::text::string_views(v@) =~= seq!["storage"@, "cases"@, case_id@, "materials"@, material_id@]);
    v
}

/// A file copied into the material storage.
#[derive(Debug)]
pub struct ImportedMaterialFile {
    pub original_file_name: String,
    pub original_path: String,
    pub stored_file_path: String,
    pub file_size: i64,
    pub mime_type: Option<String>,
    pub sha256: String,
}

impl ImportedMaterialFile {
    /// The record of a copied file: its names and size as given, its
    /// fingerprint from the stored content, its MIME type from its name.
    pub fn describe(
        original_file_name: String,
        original_path: String,
        stored_file_path: String,
        file_size: i64,
        stored_content: &[u8],
    ) -> (f: ImportedMaterialFile)
        ensures
            f.original_file_name == original_file_name,
            f.original_path == original_path,
            f.stored_file_path == stored_file_path,
            f.file_size == file_size,
            f.sha256@ == lower_hex_spec(sha256_of(stored_content@)),
            crate::error::opt_string_view(f.mime_type) == guess_mime_spec(original_file_name@),
    {
        let sha256 = sha256_hex(stored_content);
        let mime_type = guess_mime_type(original_file_name.as_str());
        ImportedMaterialFile { original_file_name, original_path, stored_file_path, file_size, mime_type, sha256 }
    }
}

/// The MIME table: PNG and JPEG images, PDF, Word and Excel documents, plain
/// text, CSV and HTML pages each get their registered type, and every other
/// extension gets none.
pub proof fn lemma_mime_table(ext: Seq<char>)
    ensures
        mime_for_extension("png"@) == Some("image/png"@),
        mime_for_extension("jpg"@) == Some("image/jpeg"@),
        mime_for_extension("jpeg"@) == Some("image/jpeg"@),
        mime_for_extension("pdf"@) == Some("application/pdf"@),
        mime_for_extension("docx"@) == Some("application/vnd.openxmlformats-officedocument.wordprocessingml.document"@),
        mime_for_extension("xlsx"@) == Some("application/vnd.openxmlformats-officedocument.spreadsheetml.sheet"@),
        mime_for_extension("txt"@) == Some("text/plain"@),
        mime_for_extension("csv"@) == Some("text/csv"@),
        mime_for_extension("html"@) == Some("text/html"@),
        mime_for_extension("htm"@) == Some("text/html"@),
        mime_for_extension(ext) is Some <==> (ext == "png"@ || ext == "jpg"@ || ext == "jpeg"@ || ext == "pdf"@ || ext
            == "docx"@ || ext == "xlsx"@ || ext == "txt"@ || ext == "csv"@ || ext == "html"@ || ext == "htm"@),
{
    reveal_strlit("png");
    reveal_strlit("jpg");
    reveal_strlit("jpeg");
    reveal_strlit("pdf");
    reveal_strlit("docx");
    reveal_strlit("xlsx");
    reveal_strlit("txt");
    reveal_strlit("csv");
    reveal_strlit("html");
    reveal_strlit("htm");
    assert("jpg"@[0] != "png"@[0]);
    assert("jpeg"@.len() != "png"@.len());
    assert("pdf"@[1] != "png"@[1] && "pdf"@[0] != "jpg"@[0]);
    assert("docx"@[0] != "jpeg"@[0]);
    assert("xlsx"@[0] != "jpeg"@[0] && "xlsx"@[0] != "docx"@[0]);
    assert("txt"@[0] != "png"@[0] && "txt"@[0] != "jpg"@[0] && "txt"@[0] != "pdf"@[0]);
    assert("csv"@[0] != "png"@[0] && "csv"@[0] != "jpg"@[0] && "csv"@[0] != "pdf"@[0] && "csv"@[0] != "txt"@[0]);
}

} // verus!
