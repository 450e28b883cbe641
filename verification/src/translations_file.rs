//! Language files: JSON documents with a `language` tag and a `strings`
//! object of translations.
use vstd::prelude::*;

use crate::i18n::{pairs_view, MaterialTranslations};

verus! {

/// An error of the JSON parser.
#[verifier::external_type_specification]
#[verifier::external_body]
pub struct ExJsonError(serde_json::Error);

/// File extension of language files.
pub const TRANSLATION_FILE_EXTENSION: &'static str = "mui_lang";

/// What the loader reads of a parsed language file.
#[derive(Debug, Clone)]
pub struct TranslationDocument {
    /// The top-level `language` member: `None` where it is absent, else
    /// its text where it is a string.
    pub language: Option<Option<String>>,
    /// The top-level `strings` member: `None` where it is absent; else,
    /// where it is an object, its members in order, each with its text
    /// where the member's value is a string.
    pub strings: Option<Option<Vec<(String, Option<String>)>>>,
}

/// A language file's members as plain values.
pub struct TranslationDocumentView {
    pub language: Option<Option<Seq<char>>>,
    pub strings: Option<Option<Seq<(Seq<char>, Option<Seq<char>>)>>>,
}

/// The text of an optional string.
pub open spec fn opt_text(s: Option<String>) -> Option<Seq<char>> {
    match s {
        Some(t) => Some(t@),
        None => None,
    }
}

/// The members of a `strings` object as plain values.
pub open spec fn members_view(v: Seq<(String, Option<String>)>) -> Seq<(Seq<char>, Option<Seq<char>>)> {
    v.map_values(|m: (String, Option<String>)| (m.0@, opt_text(m.1)))
}

impl View for TranslationDocument {
    type V = TranslationDocumentView;

    open spec fn view(&self) -> TranslationDocumentView {
        TranslationDocumentView {
            language: match self.language {
                Some(l) => Some(opt_text(l)),
                None => None,
            },
            strings: match self.strings {
                Some(Some(m)) => Some(Some(members_view(m@))),
                Some(None) => Some(None),
                None => None,
            },
        }
    }
}

/// What the JSON parser reads from the bytes of a language file: `None`
/// where the bytes are not a JSON document.
pub uninterp spec fn json_translation_document(bytes: Seq<u8>) -> Option<TranslationDocumentView>;

/// Parses `bytes` as JSON with `serde_json::from_slice` into a
/// `serde_json::Value`, and reads of it the `language` and `strings`
/// members (`Value::get`), their string texts (`Value::as_str`) and the
/// members of `strings` where it is an object (`Value::as_object`, in the
/// map's iteration order). The contract claims only that the result is a
/// function of the bytes, and that parsing fails exactly where no
/// document is read.
#[verifier::external_body]
fn parse_translation_document(bytes: &[u8]) -> (r: Result<TranslationDocument, serde_json::Error>)
    ensures
        match r {
            Ok(d) => json_translation_document(bytes@) == Some(d@),
            Err(_) => json_translation_document(bytes@) is None,
        },
{
    let v: serde_json::Value = serde_json::from_slice(bytes)?;
    let text = |x: &serde_json::Value| x.as_str().map(|s| s.to_string());
    let language = v.get("language").map(text);
    let strings = v.get("strings").map(
        |x| x.as_object().map(|m| m.iter().map(|(k, s)| (k.clone(), text(s))).collect()),
    );
    Ok(TranslationDocument { language, strings })
}

/// Why a language file was refused.
#[derive(Debug)]
pub enum TranslationsLoadError {
    /// The bytes are not JSON.
    Json(serde_json::Error),
    /// A required member is absent or of the wrong kind.
    MissingField(&'static str),
}

/// The translations a document holds: members whose values are strings.
pub open spec fn string_members(m: Seq<(Seq<char>, Option<Seq<char>>)>) -> Seq<(Seq<char>, Seq<char>)>
    decreases m.len(),
{
    if m.len() == 0 {
        Seq::empty()
    } else {
        let rest = string_members(m.drop_last());
        match m.last().1 {
            Some(t) => rest.push((m.last().0, t)),
            None => rest,
        }
    }
}

/// The outcome of reading a document: the language where `language` is a
/// string, then the string members where `strings` is an object; each
/// failure names the member.
pub open spec fn document_outcome(d: TranslationDocumentView) -> Result<
    (Seq<char>, Seq<(Seq<char>, Seq<char>)>),
    Seq<char>,
> {
    match d.language {
        Some(Some(l)) => match d.strings {
            Some(Some(m)) => Ok((l, string_members(m))),
            _ => Err("strings"@),
        },
        _ => Err("language"@),
    }
}

/// Whether a result matches a document outcome.
pub open spec fn matches_outcome(
    r: Result<MaterialTranslations, TranslationsLoadError>,
    o: Result<(Seq<char>, Seq<(Seq<char>, Seq<char>)>), Seq<char>>,
) -> bool {
    match (r, o) {
        (Ok(t), Ok((l, s))) => t.language@ == l && pairs_view(t.strings@) == s,
        (Err(TranslationsLoadError::MissingField(f)), Err(name)) => f@ == name,
        _ => false,
    }
}

/// The translations of a parsed language file.
pub fn translations_from_document(doc: TranslationDocument) -> (r: Result<
    MaterialTranslations,
    TranslationsLoadError,
>)
    ensures
        matches_outcome(r, document_outcome(doc@)),
{
    proof {
        reveal_strlit("language");
        reveal_strlit("strings");
    }
    let language = match doc.language {
        Some(Some(l)) => l,
        _ => {
            return Err(TranslationsLoadError::MissingField("language"));
        },
    };
    let members = match doc.strings {
        Some(Some(m)) => m,
        _ => {
            return Err(TranslationsLoadError::MissingField("strings"));
        },
    };
    let mut strings: Vec<(String, String)> = Vec::new();
    let mut rest = members;
    let ghost all = rest@;
    let n = rest.len();
    let mut i: usize = 0;
    let mut reversed: Vec<(String, Option<String>)> = Vec::new();
    // move the members out in order
    while rest.len() > 0
        invariant
            reversed@ == all.subrange(rest@.len() as int, all.len() as int).reverse(),
            rest@ == all.subrange(0, rest@.len() as int),
            rest@.len() <= all.len(),
        decreases rest@.len(),
    {
        let m = rest.pop().unwrap();
        reversed.push(m);
        proof {
            assert(reversed@ =~= all.subrange(rest@.len() as int, all.len() as int).reverse());
            assert(rest@ =~= all.subrange(0, rest@.len() as int));
        }
    }
    while reversed.len() > 0
        invariant
            reversed@.len() + i == all.len(),
            all.len() == n,
            i <= all.len(),
            reversed@ == all.subrange(i as int, all.len() as int).reverse(),
            pairs_view(strings@) == string_members(members_view(all.subrange(0, i as int))),
        decreases reversed@.len(),
    {
        let m = reversed.pop().unwrap();
        proof {
            let p = all.subrange(0, i + 1);
            assert(p.drop_last() =~= all.subrange(0, i as int));
            assert(members_view(p).drop_last() =~= members_view(all.subrange(0, i as int)));
            assert(m == all[i as int]);
            assert(reversed@ =~= all.subrange(i + 1, all.len() as int).reverse());
        }
        match m.1 {
            Some(t) => {
                strings.push((m.0, t));
                proof {
                    assert(pairs_view(strings@) =~= string_members(members_view(all.subrange(0, i + 1))));
                }
            },
            None => {},
        }
        i = i + 1;
    }
    proof {
        assert(all.subrange(0, all.len() as int) =~= all);
    }
    Ok(MaterialTranslations { language, strings })
}

/// Reads a language file from its bytes.
pub fn load_translations(bytes: &[u8]) -> (r: Result<MaterialTranslations, TranslationsLoadError>)
    ensures
        match json_translation_document(bytes@) {
            None => r is Err && r->Err_0 is Json,
            Some(d) => matches_outcome(r, document_outcome(d)),
        },
{
    match parse_translation_document(bytes) {
        Ok(doc) => translations_from_document(doc),
        Err(e) => Err(TranslationsLoadError::Json(e)),
    }
}

} // verus!
