//! The catalog of model names and speech resource ids, and model validation.

use vstd::prelude::*;

use crate::error::CliError;
use crate::text::{
    eq_ignore_ascii_case, eq_ignore_ascii_case_spec, pad_right, pad_right_spec, str_eq,
};

verus! {

/// What a catalog entry serves for.
#[derive(Debug, Clone, Copy, PartialEq, Eq, Structural)]
pub enum ModelKind {
    Text,
    Embedding,
    Image,
    Video,
    Speech,
}

/// One model name or resource id of the catalog.
#[derive(Debug, Clone, Copy)]
pub struct CatalogEntry {
    pub name: &'static str,
    pub kind: ModelKind,
    pub note: &'static str,
}

/// A catalog entry as plain values: name, kind and note.
pub type EntryView = (Seq<char>, ModelKind, Seq<char>);

impl View for CatalogEntry {
    type V = EntryView;

    open spec fn view(&self) -> EntryView {
        (self.name@, self.kind, self.note@)
    }
}

/// The entries of a vector of catalog entries, as plain values.
pub open spec fn entries_view(v: Seq<CatalogEntry>) -> Seq<EntryView> {
    v.map_values(|e: CatalogEntry| e@)
}

/// The catalog, in the order in which it is listed.
pub open spec fn catalog_spec() -> Seq<EntryView> {
    seq![
        ("doubao-seed-2.0-code"@, ModelKind::Text, "text generation"@),
        ("doubao-seed-2.0-pro"@, ModelKind::Text, "text generation"@),
        ("doubao-seed-2.0-lite"@, ModelKind::Text, "text generation"@),
        ("doubao-seed-2.0-mini"@, ModelKind::Text, "text generation"@),
        ("glm-5.2"@, ModelKind::Text, "text generation"@),
        ("kimi-k2.7-code"@, ModelKind::Text, "text generation"@),
        ("deepseek-v4-pro"@, ModelKind::Text, "text generation"@),
        ("deepseek-v4-flash"@, ModelKind::Text, "text generation"@),
        ("minimax-m3"@, ModelKind::Text, "text generation"@),
        ("minimax-m2.7"@, ModelKind::Text, "text generation"@),
        ("glm-5.1"@, ModelKind::Text, "text generation"@),
        ("kimi-k2.6"@, ModelKind::Text, "text generation"@),
        ("deepseek-v3.2"@, ModelKind::Text, "text generation"@),
        ("doubao-embedding-vision"@, ModelKind::Embedding, "embedding; no Auto/console switch"@),
        ("doubao-seedream-5.0-lite"@, ModelKind::Image, "image generation"@),
        ("doubao-seedance-2.0"@, ModelKind::Video, "video generation"@),
        ("doubao-seedance-2.0-fast"@, ModelKind::Video, "video generation"@),
        ("doubao-seedance-2.0-mini"@, ModelKind::Video, "video generation"@),
        ("doubao-seedance-1.5-pro"@, ModelKind::Video, "video generation"@),
        ("seed-tts-2.0"@, ModelKind::Speech, "TTS Resource-Id"@),
        ("volc.seedasr.sauc.duration"@, ModelKind::Speech, "ASR Resource-Id"@),
    ]
}

fn entry(name: &'static str, kind: ModelKind, note: &'static str) -> (r: CatalogEntry)
    ensures
        r@ == (name@, kind, note@),
{
    CatalogEntry { name, kind, note }
}

/// The full catalog of supported model names and resource ids.
pub fn catalog() -> (r: Vec<CatalogEntry>)
    ensures
        entries_view(r@) == catalog_spec(),
{
    let r = vec![
        entry("doubao-seed-2.0-code", ModelKind::Text, "text generation"),
        entry("doubao-seed-2.0-pro", ModelKind::Text, "text generation"),
        entry("doubao-seed-2.0-lite", ModelKind::Text, "text generation"),
        entry("doubao-seed-2.0-mini", ModelKind::Text, "text generation"),
        entry("glm-5.2", ModelKind::Text, "text generation"),
        entry("kimi-k2.7-code", ModelKind::Text, "text generation"),
        entry("deepseek-v4-pro", ModelKind::Text, "text generation"),
        entry("deepseek-v4-flash", ModelKind::Text, "text generation"),
        entry("minimax-m3", ModelKind::Text, "text generation"),
        entry("minimax-m2.7", ModelKind::Text, "text generation"),
        entry("glm-5.1", ModelKind::Text, "text generation"),
        entry("kimi-k2.6", ModelKind::Text, "text generation"),
        entry("deepseek-v3.2", ModelKind::Text, "text generation"),
        entry("doubao-embedding-vision", ModelKind::Embedding, "embedding; no Auto/console switch"),
        entry("doubao-seedream-5.0-lite", ModelKind::Image, "image generation"),
        entry("doubao-seedance-2.0", ModelKind::Video, "video generation"),
        entry("doubao-seedance-2.0-fast", ModelKind::Video, "video generation"),
        entry("doubao-seedance-2.0-mini", ModelKind::Video, "video generation"),
        entry("doubao-seedance-1.5-pro", ModelKind::Video, "video generation"),
        entry("seed-tts-2.0", ModelKind::Speech, "TTS Resource-Id"),
        entry("volc.seedasr.sauc.duration", ModelKind::Speech, "ASR Resource-Id"),
    ];
    assert(entries_view(r@) =~= catalog_spec());
    r
}


/// The name under which a kind is shown, as its `Debug` form gives it.
pub open spec fn kind_name_spec(kind: ModelKind) -> Seq<char> {
    match kind {
        ModelKind::Text => "Text"@,
        ModelKind::Embedding => "Embedding"@,
        ModelKind::Image => "Image"@,
        ModelKind::Video => "Video"@,
        ModelKind::Speech => "Speech"@,
    }
}

/// The name under which a kind is shown.
pub fn kind_name(kind: ModelKind) -> (r: &'static str)
    ensures
        r@ == kind_name_spec(kind),
{
    match kind {
        ModelKind::Text => "Text",
        ModelKind::Embedding => "Embedding",
        ModelKind::Image => "Image",
        ModelKind::Video => "Video",
        ModelKind::Speech => "Speech",
    }
}

/// A name that means the provider's automatic model choice.
pub open spec fn is_auto(name: Seq<char>) -> bool {
    eq_ignore_ascii_case_spec(name, "auto"@)
}

/// The catalog lists `name` under `kind`.
pub open spec fn in_catalog(name: Seq<char>, kind: ModelKind) -> bool {
    exists|i: int| 0 <= i < catalog_spec().len() && #[trigger] catalog_spec()[i].0 == name
        && catalog_spec()[i].1 == kind
}

/// `name` is a concrete catalog entry of `kind`.
pub open spec fn model_accepted(name: Seq<char>, kind: ModelKind) -> bool {
    !is_auto(name) && in_catalog(name, kind)
}

/// `e` is the error with which a name that is not accepted for `kind` is refused:
/// casings of `auto` have their own error, any other name is reported with the kind.
pub open spec fn rejection_ok(name: Seq<char>, kind: ModelKind, e: CliError) -> bool {
    if is_auto(name) {
        e == CliError::AutoModel
    } else {
        e matches CliError::UnsupportedModel { kind: k, name: n } && k == kind && n@ == name
    }
}

/// Checks that `name` is a concrete catalog entry of `kind`.
///
/// Any casing of `auto` is refused first, whatever the kind; then a name that the
/// catalog does not list under `kind` is refused.
pub fn validate_model(name: &str, kind: ModelKind) -> (r: Result<(), CliError>)
    ensures
        model_accepted(name@, kind) ==> r is Ok,
        !model_accepted(name@, kind) ==> (r matches Err(e) && rejection_ok(name@, kind, e)),
{
    if eq_ignore_ascii_case(name, "auto") {
        return Err(CliError::AutoModel);
    }
    let entries = catalog();
    let mut i: usize = 0;
    while i < entries.len()
        invariant
            i <= entries.len(),
            entries_view(entries@) == catalog_spec(),
            !is_auto(name@),
            forall|j: int|
                0 <= j < i ==> !(#[trigger] catalog_spec()[j].0 == name@ && catalog_spec()[j].1
                    == kind),
        decreases entries.len() - i,
    {
        let e = entries[i];
        assert(catalog_spec()[i as int] == e@);
        if e.kind == kind && str_eq(e.name, name) {
            assert(catalog_spec()[i as int].0 == name@ && catalog_spec()[i as int].1 == kind);
            return Ok(());
        }
        i = i + 1;
    }
    Err(CliError::UnsupportedModel { kind, name: String::from_str(name) })
}


/// An entry of kind `k` passes the optional kind filter.
pub open spec fn kind_matches(filter: Option<ModelKind>, k: ModelKind) -> bool {
    match filter {
        None => true,
        Some(f) => f == k,
    }
}

/// The catalog entries that the `list` command shows for a kind filter, in catalog order.
pub open spec fn listed_spec(filter: Option<ModelKind>) -> Seq<EntryView> {
    catalog_spec().filter(|e: EntryView| kind_matches(filter, e.1))
}

/// The catalog entries of the given kind, or all of them, in catalog order.
pub fn catalog_entries(filter: Option<ModelKind>) -> (r: Vec<CatalogEntry>)
    ensures
        entries_view(r@) == listed_spec(filter),
{
    let all = catalog();
    let ghost pred = |e: EntryView| kind_matches(filter, e.1);
    let mut r: Vec<CatalogEntry> = Vec::new();
    let mut i: usize = 0;
    while i < all.len()
        invariant
            i <= all.len(),
            entries_view(all@) == catalog_spec(),
            pred == (|e: EntryView| kind_matches(filter, e.1)),
            entries_view(r@) == catalog_spec().take(i as int).filter(pred),
        decreases all.len() - i,
    {
        reveal(Seq::filter);
        let e = all[i];
        assert(catalog_spec().take(i + 1).drop_last() =~= catalog_spec().take(i as int));
        assert(catalog_spec().take(i + 1).last() == e@);
        let keep = match filter {
            None => true,
            Some(f) => f == e.kind,
        };
        if keep {
            r.push(e);
        }
        assert(entries_view(r@) =~= catalog_spec().take(i + 1).filter(pred));
        i = i + 1;
    }
    assert(catalog_spec().take(all.len() as int) =~= catalog_spec());
    r
}

/// One line of the plain-text catalog listing: the name in a 32-wide column,
/// the kind in a 10-wide column, then the note.
pub open spec fn catalog_line_spec(e: EntryView) -> Seq<char> {
    pad_right_spec(e.0, 32) + " "@ + pad_right_spec(kind_name_spec(e.1), 10) + " "@ + e.2
}

/// The plain-text listing of the catalog for a kind filter, one line per entry.
pub fn catalog_lines(filter: Option<ModelKind>) -> (r: Vec<String>)
    ensures
        crate::text::strings_view(r@) == listed_spec(filter).map_values(
            |e: EntryView| catalog_line_spec(e),
        ),
{
    let entries = catalog_entries(filter);
    let mut r: Vec<String> = Vec::new();
    let mut i: usize = 0;
    while i < entries.len()
        invariant
            i <= entries.len(),
            entries_view(entries@) == listed_spec(filter),
            r@.len() == i,
            forall|j: int|
                0 <= j < i ==> (#[trigger] r@[j])@ == catalog_line_spec(listed_spec(filter)[j]),
        decreases entries.len() - i,
    {
        let e = entries[i];
        assert(listed_spec(filter)[i as int] == e@);
        let mut line = pad_right(e.name, 32);
        line.append(" ");
        let kind_column = pad_right(kind_name(e.kind), 10);
        line.append(kind_column.as_str());
        line.append(" ");
        line.append(e.note);
        r.push(line);
        i = i + 1;
    }
    assert(crate::text::strings_view(r@) =~= listed_spec(filter).map_values(
        |e: EntryView| catalog_line_spec(e),
    ));
    r
}


/// No catalog entry is named by some casing of `auto`: every catalog name is longer
/// than four characters.
pub proof fn lemma_catalog_has_no_auto_name()
    ensures
        forall|i: int| 0 <= i < catalog_spec().len() ==> !is_auto(#[trigger] catalog_spec()[i].0),
{
    reveal_strlit("auto");
    reveal_strlit("doubao-seed-2.0-code");
    reveal_strlit("doubao-seed-2.0-pro");
    reveal_strlit("doubao-seed-2.0-lite");
    reveal_strlit("doubao-seed-2.0-mini");
    reveal_strlit("glm-5.2");
    reveal_strlit("kimi-k2.7-code");
    reveal_strlit("deepseek-v4-pro");
    reveal_strlit("deepseek-v4-flash");
    reveal_strlit("minimax-m3");
    reveal_strlit("minimax-m2.7");
    reveal_strlit("glm-5.1");
    reveal_strlit("kimi-k2.6");
    reveal_strlit("deepseek-v3.2");
    reveal_strlit("doubao-embedding-vision");
    reveal_strlit("doubao-seedream-5.0-lite");
    reveal_strlit("doubao-seedance-2.0");
    reveal_strlit("doubao-seedance-2.0-fast");
    reveal_strlit("doubao-seedance-2.0-mini");
    reveal_strlit("doubao-seedance-1.5-pro");
    reveal_strlit("seed-tts-2.0");
    reveal_strlit("volc.seedasr.sauc.duration");
}

/// A name passes `validate_model` for a kind exactly when `list --kind` shows it for
/// that kind: the catalog listing is the whole set of accepted models.
pub proof fn lemma_accepted_iff_listed(name: Seq<char>, kind: ModelKind)
    ensures
        model_accepted(name, kind) <==> exists|i: int|
            0 <= i < listed_spec(Some(kind)).len() && #[trigger] listed_spec(Some(kind))[i].0
                == name,
{
    broadcast use vstd::seq_lib::group_filter_ensures;

    lemma_catalog_has_no_auto_name();
    let pred = |e: EntryView| kind_matches(Some(kind), e.1);
    let listed = listed_spec(Some(kind));
    if model_accepted(name, kind) {
        let i = choose|i: int|
            0 <= i < catalog_spec().len() && #[trigger] catalog_spec()[i].0 == name
                && catalog_spec()[i].1 == kind;
        assert(pred(catalog_spec()[i]));
        assert(listed.contains(catalog_spec()[i]));
        let j = choose|j: int| 0 <= j < listed.len() && listed[j] == catalog_spec()[i];
        assert(listed[j].0 == name);
    }
    if exists|i: int| 0 <= i < listed.len() && #[trigger] listed[i].0 == name {
        let j = choose|j: int| 0 <= j < listed.len() && #[trigger] listed[j].0 == name;
        assert(pred(listed[j]));
        assert(listed.contains(listed[j]));
        catalog_spec().lemma_filter_contains_rev(pred, listed[j]);
        let i = choose|i: int| 0 <= i < catalog_spec().len() && catalog_spec()[i] == listed[j];
        assert(catalog_spec()[i].0 == name && catalog_spec()[i].1 == kind);
    }
}


/// Every kind has at least one catalog entry, so `list --kind` is never empty.
pub proof fn lemma_every_kind_is_listed(kind: ModelKind)
    ensures
        listed_spec(Some(kind)).len() > 0,
{
    broadcast use vstd::seq_lib::group_filter_ensures;

    let pred = |e: EntryView| kind_matches(Some(kind), e.1);
    let i: int = match kind {
        ModelKind::Text => 0,
        ModelKind::Embedding => 13,
        ModelKind::Image => 14,
        ModelKind::Video => 15,
        ModelKind::Speech => 19,
    };
    assert(pred(catalog_spec()[i]));
    assert(listed_spec(Some(kind)).contains(catalog_spec()[i]));
}

} // verus!
