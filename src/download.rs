use vstd::prelude::*;

use crate::text::{after_last, occurs, split_after_last};

verus! {

/// Headers that serve a stored file as an attachment.
pub struct DownloadHeaders {
    pub content_type: String,
    pub disposition: String,
}

/// Media type of the files that can be downloaded, by extension.
pub open spec fn mime_of(ext: Seq<char>) -> Option<Seq<char>> {
    if ext == "pdf"@ {
        Some("application/pdf"@)
    } else if ext == "docx"@ {
        Some("application/vnd.openxmlformats-officedocument.wordprocessingml.document"@)
    } else if ext == "pptx"@ {
        Some("application/vnd.openxmlformats-officedocument.presentationml.presentation"@)
    } else {
        None
    }
}

/// Extension of a file name: what follows its last `.`; empty when the
/// name has no `.`.
pub open spec fn extension_of(name: Seq<char>) -> Seq<char> {
    if occurs(name, '.') {
        after_last(name, '.')
    } else {
        Seq::empty()
    }
}

/// The headers for downloading `file_name`, or `None` when its type is not
/// one that can be served.
pub fn download_headers(file_name: &String) -> (r: Option<DownloadHeaders>)
    ensures
        match mime_of(extension_of(file_name@)) {
            Some(mime) => r is Some && r->0.content_type@ == mime + "; charset=utf-8"@
                && r->0.disposition@ == "attachment; filename=\""@ + file_name@ + "\""@,
            None => r is None,
        },
{
    let (ext, found) = split_after_last(file_name, '.');
    let mime = if !found {
        proof {
            reveal_strlit("pdf");
            reveal_strlit("docx");
            reveal_strlit("pptx");
            assert("pdf"@.len() == 3);
            assert("docx"@.len() == 4);
            assert("pptx"@.len() == 4);
        }
        return None;
    } else if ext == String::from_str("pdf") {
        "application/pdf"
    } else if ext == String::from_str("docx") {
        "application/vnd.openxmlformats-officedocument.wordprocessingml.document"
    } else if ext == String::from_str("pptx") {
        "application/vnd.openxmlformats-officedocument.presentationml.presentation"
    } else {
        return None;
    };
    let content_type = String::from_str(mime).concat("; charset=utf-8");
    let disposition = String::from_str("attachment; filename=\"").concat(file_name.as_str()).concat("\"");
    Some(DownloadHeaders { content_type, disposition })
}

} // verus!
