//! The legacy-module translator.
//!
//! Legacy module text (the synchronous `require`-based convention) is
//! statically rewritten into standard module form without involving the
//! engine: the text is wrapped so that everything it assigns to its
//! `module.exports` object is re-exposed as a default export. Text that
//! already uses standard module syntax is classified as non-legacy and
//! returned unchanged; text showing both conventions at once cannot be
//! classified and is rejected.

use vstd::prelude::*;

use crate::text::{contains_seq, contains_sub};
use crate::LoaderError;

verus! {

/// Whether the text shows standard module syntax.
pub open spec fn has_esm_syntax(t: Seq<char>) -> bool {
    contains_seq(t, "import "@) || contains_seq(t, "export "@)
}

/// Whether the text shows the legacy module convention.
pub open spec fn has_legacy_syntax(t: Seq<char>) -> bool {
    ||| contains_seq(t, "require("@)
    ||| contains_seq(t, "module.exports"@)
    ||| contains_seq(t, "exports."@)
}

/// The wrapper prologue: a fresh `module.exports` object for the legacy
/// text to populate.
pub open spec fn cjs_prologue() -> Seq<char> {
    "const module = { exports: {} };\nconst exports = module.exports;\n"@
}

/// The wrapper epilogue: the populated exports re-exposed through
/// standard export syntax.
pub open spec fn cjs_epilogue() -> Seq<char> {
    "\nexport default module.exports;\n"@
}

/// Legacy text rewritten into standard module form.
pub open spec fn cjs_wrapped(t: Seq<char>) -> Seq<char> {
    cjs_prologue() + t + cjs_epilogue()
}

/// What the translator produces: unchanged text when the input is not
/// legacy syntax, the wrapped rewrite when it is, and nothing when the
/// text shows both conventions and cannot be classified.
pub open spec fn spec_translate(t: Seq<char>) -> Option<Seq<char>> {
    if has_esm_syntax(t) && has_legacy_syntax(t) {
        None
    } else if has_legacy_syntax(t) {
        Some(cjs_wrapped(t))
    } else {
        Some(t)
    }
}

/// Whether the text is classified as legacy-syntax and would be rewritten.
pub fn is_legacy_syntax(text: &str) -> (r: bool)
    ensures
        r == has_legacy_syntax(text@),
{
    contains_sub(text, "require(") || contains_sub(text, "module.exports") || contains_sub(
        text,
        "exports.",
    )
}

/// Rewrites legacy module text into standard module form, returns
/// non-legacy text unchanged, and fails with `TranslationFailed` on text
/// that shows both conventions at once.
pub fn translate_cjs_text(text: &str) -> (r: Result<String, LoaderError>)
    ensures
        r is Ok <==> spec_translate(text@) is Some,
        r matches Ok(out) ==> spec_translate(text@) == Some(out@),
        r matches Err(e) ==> e == LoaderError::TranslationFailed,
{
    let esm = contains_sub(text, "import ") || contains_sub(text, "export ");
    let legacy = is_legacy_syntax(text);
    if esm && legacy {
        Err(LoaderError::TranslationFailed)
    } else if legacy {
        let mut out = String::from_str(
            "const module = { exports: {} };\nconst exports = module.exports;\n",
        );
        out.append(text);
        out.append("\nexport default module.exports;\n");
        Ok(out)
    } else {
        Ok(String::from_str(text))
    }
}

/// Translation is the identity on any text that is not legacy syntax; in
/// particular, text already written in standard module form passes
/// through unchanged.
pub proof fn lemma_translate_non_legacy_identity(t: Seq<char>)
    requires
        !has_legacy_syntax(t),
    ensures
        spec_translate(t) == Some(t),
{
}

} // verus!
