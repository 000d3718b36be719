//! Extension-to-MIME-type resolution.
//!
//! A path's content type is chosen by the suffix of its character sequence:
//! each known extension maps to one fixed MIME string, and anything else
//! falls back to the generic binary type.

use vstd::prelude::*;

verus! {

/// `s` ends with `suffix`.
pub open spec fn ends_with(s: Seq<char>, suffix: Seq<char>) -> bool {
    &&& suffix.len() <= s.len()
    &&& forall|j: int| 0 <= j < suffix.len() ==> s[s.len() - suffix.len() + j] == suffix[j]
}

/// The MIME type for `path`, decided by its extension. Extensions are
/// tried in a fixed order; an unrecognized one gets the generic binary type.
pub open spec fn mime_type_of(path: Seq<char>) -> Seq<char> {
    if ends_with(path, ".wasm"@) {
        "application/wasm"@
    } else if ends_with(path, ".js"@) {
        "application/javascript"@
    } else if ends_with(path, ".html"@) {
        "text/html"@
    } else if ends_with(path, ".css"@) {
        "text/css"@
    } else if ends_with(path, ".png"@) {
        "image/png"@
    } else if ends_with(path, ".jpg"@) || ends_with(path, ".jpeg"@) {
        "image/jpeg"@
    } else if ends_with(path, ".svg"@) {
        "image/svg+xml"@
    } else if ends_with(path, ".pck"@) {
        "application/octet-stream"@
    } else if ends_with(path, ".mp3"@) {
        "audio/mpeg"@
    } else {
        "application/octet-stream"@
    }
}

/// Each known extension decides the MIME type on its own: a path ending in
/// it gets that extension's fixed MIME string, whatever the rest of the path
/// holds, and a path ending in none of them gets the generic binary type.
/// (No known extension is a suffix of another, so the fixed trial order in
/// `mime_type_of` cannot intercept a later extension's match.)
pub proof fn lemma_known_extension_mime(path: Seq<char>)
    ensures
        ends_with(path, ".wasm"@) ==> mime_type_of(path) == "application/wasm"@,
        ends_with(path, ".js"@) ==> mime_type_of(path) == "application/javascript"@,
        ends_with(path, ".html"@) ==> mime_type_of(path) == "text/html"@,
        ends_with(path, ".css"@) ==> mime_type_of(path) == "text/css"@,
        ends_with(path, ".png"@) ==> mime_type_of(path) == "image/png"@,
        ends_with(path, ".jpg"@) ==> mime_type_of(path) == "image/jpeg"@,
        ends_with(path, ".jpeg"@) ==> mime_type_of(path) == "image/jpeg"@,
        ends_with(path, ".svg"@) ==> mime_type_of(path) == "image/svg+xml"@,
        ends_with(path, ".pck"@) ==> mime_type_of(path) == "application/octet-stream"@,
        ends_with(path, ".mp3"@) ==> mime_type_of(path) == "audio/mpeg"@,
        !ends_with(path, ".wasm"@) && !ends_with(path, ".js"@) && !ends_with(path, ".html"@)
            && !ends_with(path, ".css"@) && !ends_with(path, ".png"@) && !ends_with(path, ".jpg"@)
            && !ends_with(path, ".jpeg"@) && !ends_with(path, ".svg"@) && !ends_with(
            path,
            ".pck"@,
        ) && !ends_with(path, ".mp3"@) ==> mime_type_of(path) == "application/octet-stream"@,
{
    reveal_strlit(".wasm");
    reveal_strlit(".js");
    reveal_strlit(".html");
    reveal_strlit(".css");
    reveal_strlit(".png");
    reveal_strlit(".jpg");
    reveal_strlit(".jpeg");
    reveal_strlit(".svg");
    reveal_strlit(".pck");
    reveal_strlit(".mp3");
    // The last two characters of `path` identify the extension: over the ten
    // known extensions the (second-to-last, last) pairs are pairwise distinct.
    assert(ends_with(path, ".wasm"@) ==> path[path.len() - 1] == 'm' && path[path.len() - 2]
        == 's') by {
        if ends_with(path, ".wasm"@) {
            assert(path[path.len() - ".wasm"@.len() + 4] == ".wasm"@[4]);
            assert(path[path.len() - ".wasm"@.len() + 3] == ".wasm"@[3]);
        }
    }
    assert(ends_with(path, ".js"@) ==> path[path.len() - 1] == 's' && path[path.len() - 2]
        == 'j') by {
        if ends_with(path, ".js"@) {
            assert(path[path.len() - ".js"@.len() + 2] == ".js"@[2]);
            assert(path[path.len() - ".js"@.len() + 1] == ".js"@[1]);
        }
    }
    assert(ends_with(path, ".html"@) ==> path[path.len() - 1] == 'l' && path[path.len() - 2]
        == 'm') by {
        if ends_with(path, ".html"@) {
            assert(path[path.len() - ".html"@.len() + 4] == ".html"@[4]);
            assert(path[path.len() - ".html"@.len() + 3] == ".html"@[3]);
        }
    }
    assert(ends_with(path, ".css"@) ==> path[path.len() - 1] == 's' && path[path.len() - 2]
        == 's') by {
        if ends_with(path, ".css"@) {
            assert(path[path.len() - ".css"@.len() + 3] == ".css"@[3]);
            assert(path[path.len() - ".css"@.len() + 2] == ".css"@[2]);
        }
    }
    assert(ends_with(path, ".png"@) ==> path[path.len() - 1] == 'g' && path[path.len() - 2]
        == 'n') by {
        if ends_with(path, ".png"@) {
            assert(path[path.len() - ".png"@.len() + 3] == ".png"@[3]);
            assert(path[path.len() - ".png"@.len() + 2] == ".png"@[2]);
        }
    }
    assert(ends_with(path, ".jpg"@) ==> path[path.len() - 1] == 'g' && path[path.len() - 2]
        == 'p') by {
        if ends_with(path, ".jpg"@) {
            assert(path[path.len() - ".jpg"@.len() + 3] == ".jpg"@[3]);
            assert(path[path.len() - ".jpg"@.len() + 2] == ".jpg"@[2]);
        }
    }
    assert(ends_with(path, ".jpeg"@) ==> path[path.len() - 1] == 'g' && path[path.len() - 2]
        == 'e') by {
        if ends_with(path, ".jpeg"@) {
            assert(path[path.len() - ".jpeg"@.len() + 4] == ".jpeg"@[4]);
            assert(path[path.len() - ".jpeg"@.len() + 3] == ".jpeg"@[3]);
        }
    }
    assert(ends_with(path, ".svg"@) ==> path[path.len() - 1] == 'g' && path[path.len() - 2]
        == 'v') by {
        if ends_with(path, ".svg"@) {
            assert(path[path.len() - ".svg"@.len() + 3] == ".svg"@[3]);
            assert(path[path.len() - ".svg"@.len() + 2] == ".svg"@[2]);
        }
    }
    assert(ends_with(path, ".pck"@) ==> path[path.len() - 1] == 'k' && path[path.len() - 2]
        == 'c') by {
        if ends_with(path, ".pck"@) {
            assert(path[path.len() - ".pck"@.len() + 3] == ".pck"@[3]);
            assert(path[path.len() - ".pck"@.len() + 2] == ".pck"@[2]);
        }
    }
    assert(ends_with(path, ".mp3"@) ==> path[path.len() - 1] == '3' && path[path.len() - 2]
        == 'p') by {
        if ends_with(path, ".mp3"@) {
            assert(path[path.len() - ".mp3"@.len() + 3] == ".mp3"@[3]);
            assert(path[path.len() - ".mp3"@.len() + 2] == ".mp3"@[2]);
        }
    }
}

/// Does `s` end with `suffix`? Character-by-character comparison from the
/// point where the suffix would start.
pub fn str_ends_with(s: &str, suffix: &str) -> (r: bool)
    ensures
        r == ends_with(s@, suffix@),
{
    let n: usize = s.unicode_len();
    let m: usize = suffix.unicode_len();
    if m > n {
        return false;
    }
    let mut i: usize = 0;
    while i < m
        invariant
            i <= m <= n,
            n == s@.len(),
            m == suffix@.len(),
            forall|j: int| 0 <= j < i ==> s@[n - m + j] == suffix@[j],
        decreases m - i,
    {
        if s.get_char(n - m + i) != suffix.get_char(i) {
            return false;
        }
        i = i + 1;
    }
    true
}

/// The best-known content-type string for a path's extension, defaulting to
/// the generic binary type. Total: every input gets a value.
pub fn get_mime_type(path: &str) -> (r: &'static str)
    ensures
        r@ == mime_type_of(path@),
{
    if str_ends_with(path, ".wasm") {
        "application/wasm"
    } else if str_ends_with(path, ".js") {
        "application/javascript"
    } else if str_ends_with(path, ".html") {
        "text/html"
    } else if str_ends_with(path, ".css") {
        "text/css"
    } else if str_ends_with(path, ".png") {
        "image/png"
    } else if str_ends_with(path, ".jpg") || str_ends_with(path, ".jpeg") {
        "image/jpeg"
    } else if str_ends_with(path, ".svg") {
        "image/svg+xml"
    } else if str_ends_with(path, ".pck") {
        "application/octet-stream"
    } else if str_ends_with(path, ".mp3") {
        "audio/mpeg"
    } else {
        "application/octet-stream"
    }
}

} // verus!
