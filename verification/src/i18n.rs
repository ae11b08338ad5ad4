//! Localized messages: one Fluent bundle per language code, and the language in use.
//!
//! Reading a language's FTL source (from disk or from the files built into the
//! program) is the caller's part; building bundles and looking messages up is
//! done here, with `fluent` and `unic-langid`.
use vstd::prelude::*;
use vstd::string::*;

verus! {

#[verifier::external_type_specification]
#[verifier::external_body]
#[verifier::reject_recursive_types(R)]
#[verifier::reject_recursive_types(M)]
pub struct ExFluentBundle<R, M>(fluent::bundle::FluentBundle<R, M>);

#[verifier::external_type_specification]
#[verifier::external_body]
pub struct ExFluentResource(fluent::FluentResource);

#[verifier::external_type_specification]
#[verifier::external_body]
pub struct ExIntlLangMemoizer(intl_memoizer::IntlLangMemoizer);

/// What a bundle holds: for each message that has a value, the text that value
/// formats to (with no arguments), by message id.
pub uninterp spec fn bundle_messages(bundle: fluent::FluentBundle<fluent::FluentResource>) -> Map<Seq<char>, Seq<char>>;

/// What `unic-langid` makes of `code` (`LanguageIdentifier`'s `FromStr`): the
/// text of the identifier it parses (its `Display`, the canonical form), or
/// the text of the error it reports.
pub uninterp spec fn language_tag(code: Seq<char>) -> Result<Seq<char>, Seq<char>>;

/// How a bundle is set up, where it has `FluentBundle::new`'s settings and a
/// single locale: the text of that locale, and the FTL sources of the
/// resources added to it, in order. `None` for any other bundle.
pub uninterp spec fn bundle_setup(bundle: fluent::FluentBundle<fluent::FluentResource>) -> Option<(Seq<char>, Seq<Seq<char>>)>;

/// What fluent formats each message that has a value to (with no arguments),
/// by message id, in a bundle made by `FluentBundle::new` for the single
/// locale `language` that holds the resources parsed from `sources`, added in
/// that order.
pub uninterp spec fn ftl_messages(language: Seq<char>, sources: Seq<Seq<char>>) -> Map<Seq<char>, Seq<char>>;

/// `unic-langid` parses `code` into the identifier printed as `tag`.
pub open spec fn parses_to(code: Seq<char>, tag: Seq<char>) -> bool {
    language_tag(code) == Ok::<Seq<char>, Seq<char>>(tag)
}

/// `unic-langid` refuses `code`, for the reason `reason`.
pub open spec fn refused_for(code: Seq<char>, reason: Seq<char>) -> bool {
    language_tag(code) == Err::<Seq<char>, Seq<char>>(reason)
}

/// The set-up of a new bundle for the locale `language`: no resources yet.
pub open spec fn fresh_setup(language: Seq<char>) -> Option<(Seq<char>, Seq<Seq<char>>)> {
    Some((language, Seq::empty()))
}

/// The set-up `setup` after one more resource, parsed from `source`, is added.
pub open spec fn with_source(setup: Option<(Seq<char>, Seq<Seq<char>>)>, source: Seq<char>) -> Option<(Seq<char>, Seq<Seq<char>>)> {
    match setup {
        Some((language, sources)) => Some((language, sources.push(source))),
        None => None,
    }
}

/// A new bundle, or why none could be made.
type BundleOrReason = Result<fluent::FluentBundle<fluent::FluentResource>, String>;

/// Parses `code` into a `unic_langid::LanguageIdentifier` (its `FromStr`) and
/// makes a bundle for it with `fluent::FluentBundle::new`, the identifier as
/// the single locale; a refused code gives the text of the parser's error.
/// Claimed: the call succeeds exactly when `language_tag` gives an identifier;
/// the bundle is then set up for that identifier, with no resources, entries
/// or messages; the error text is the one `language_tag` gives. The codes of
/// the built-in languages, two-letter lower-case language subtags, are
/// identifiers that print as themselves.
#[verifier::external_body]
fn new_bundle_for(code: &str) -> (r: BundleOrReason)
    ensures
        r is Ok == language_tag(code@) is Ok,
        r matches Ok(bundle) ==> (language_tag(code@) matches Ok(tag) && bundle_setup(bundle) == fresh_setup(tag)),
        is_bundled_code(code@) ==> r is Ok,
        r matches Ok(bundle) ==> (is_bundled_code(code@) ==> bundle_setup(bundle) == fresh_setup(code@)),
        r matches Err(text) ==> refused_for(code@, text@),
        r matches Ok(bundle) ==> bundle_messages(bundle).dom() == Set::<Seq<char>>::empty(),
        r matches Ok(bundle) ==> bundle_entry_ids(bundle) == Set::<Seq<char>>::empty(),
{
    match code.parse::<unic_langid::LanguageIdentifier>() {
        Ok(language) => Ok(fluent::FluentBundle::new(vec![language])),
        Err(e) => Err(e.to_string()),
    }
}

/// The FTL text a resource was parsed from (what `FluentResource::source`
/// gives back).
pub uninterp spec fn resource_source(resource: fluent::FluentResource) -> Seq<char>;

/// Calls `fluent::FluentResource::try_new` and keeps the resource in either
/// case (on a syntax error, the part that could be parsed). Claimed: the
/// resource holds the text it was made from; which entries it parsed is left
/// unsaid.
#[verifier::external_body]
fn resource_from_source(source: String) -> (r: fluent::FluentResource)
    ensures
        resource_source(r) == source@,
{
    match fluent::FluentResource::try_new(source) {
        Ok(res) => res,
        Err((res, _)) => res,
    }
}

/// The ids of the messages and terms that fluent's parser
/// (`FluentResource::try_new`) finds in FTL text, in order of appearance.
pub uninterp spec fn ftl_entry_ids(source: Seq<char>) -> Seq<Seq<char>>;

/// The ids of the messages that fluent's parser finds in FTL text whose first
/// entry under that id is a message with a value.
pub uninterp spec fn ftl_message_ids(source: Seq<char>) -> Set<Seq<char>>;

/// An ASCII letter.
pub open spec fn is_ascii_letter(c: char) -> bool {
    ('a' <= c && c <= 'z') || ('A' <= c && c <= 'Z')
}

/// An FTL identifier: an ASCII letter, then ASCII letters, digits, `-` and `_`.
pub open spec fn is_ftl_identifier(id: Seq<char>) -> bool {
    &&& id.len() > 0
    &&& is_ascii_letter(id[0])
    &&& forall|i: int| 1 <= i < id.len() ==> {
        let c = #[trigger] id[i];
        is_ascii_letter(c) || ('0' <= c && c <= '9') || c == '-' || c == '_'
    }
}

/// The ids under which a bundle holds entries (messages and terms).
pub uninterp spec fn bundle_entry_ids(bundle: fluent::FluentBundle<fluent::FluentResource>) -> Set<Seq<char>>;

/// The entries `ids` can all be filed in a bundle that holds entries under
/// `present`: no id occurs twice, and none is present already.
pub open spec fn entries_fit(ids: Seq<Seq<char>>, present: Set<Seq<char>>) -> bool {
    &&& ids.no_duplicates()
    &&& forall|i: int| 0 <= i < ids.len() ==> !present.contains(#[trigger] ids[i])
}

/// Calls `FluentBundle::add_resource`; the result tells whether it reported no
/// error. Claimed, as the crate's source shows: each message or term of the
/// resource is filed under its id unless an entry with that id is there
/// already, in which case it is ignored and an error is reported. So no
/// message is taken away; the entry ids become the union of the old ones and
/// the resource's, which are FTL identifiers (the parser's grammar); the
/// messages with a value become the old ones and those of the resource whose
/// id was not taken; a bundle's messages are among its entries; and the call
/// reports no error exactly when the resource's ids fit. The resource is kept
/// after those added before, and the bundle's settings and locales stay, so a
/// bundle set up by `FluentBundle::new` then formats its messages as
/// `ftl_messages` gives for its locale and sources (named, not spelled out:
/// that is the crate's parsing and formatting).
#[verifier::external_body]
fn add_resource(bundle: &mut fluent::FluentBundle<fluent::FluentResource>, resource: fluent::FluentResource) -> (ok: bool)
    ensures
        bundle_messages(*old(bundle)).dom().subset_of(bundle_messages(*final(bundle)).dom()),
        bundle_entry_ids(*final(bundle)) == bundle_entry_ids(*old(bundle)).union(ftl_entry_ids(resource_source(resource)).to_set()),
        ok == entries_fit(ftl_entry_ids(resource_source(resource)), bundle_entry_ids(*old(bundle))),
        bundle_messages(*final(bundle)).dom() == bundle_messages(*old(bundle)).dom().union(
            ftl_message_ids(resource_source(resource)).difference(bundle_entry_ids(*old(bundle)))),
        bundle_messages(*final(bundle)).dom().subset_of(bundle_entry_ids(*final(bundle))),
        forall|k: Seq<char>| #[trigger] bundle_entry_ids(*final(bundle)).contains(k)
            && !bundle_entry_ids(*old(bundle)).contains(k) ==> is_ftl_identifier(k),
        bundle_setup(*final(bundle)) == with_source(bundle_setup(*old(bundle)), resource_source(resource)),
        bundle_setup(*final(bundle)) matches Some(setup) ==> bundle_messages(*final(bundle)) == ftl_messages(setup.0, setup.1),
{
    bundle.add_resource(resource).is_ok()
}

/// Looks `key` up with `FluentBundle::get_message`, takes the message's value
/// and formats it with `format_pattern` and no arguments. Claimed: the result
/// is what `bundle_messages` gives for `key`, `None` when the message is
/// missing or has no value.
#[verifier::external_body]
fn format_message(bundle: &fluent::FluentBundle<fluent::FluentResource>, key: &str) -> (r: Option<String>)
    ensures
        r is Some == bundle_messages(*bundle).contains_key(key@),
        r matches Some(text) ==> text@ == bundle_messages(*bundle)[key@],
{
    let message = bundle.get_message(key)?;
    let pattern = message.value()?;
    let mut errors = vec![];
    Some(bundle.format_pattern(pattern, None, &mut errors).into_owned())
}

/// The languages the program offers, as (code, name).
pub open spec fn offered_languages() -> Seq<(&'static str, &'static str)> {
    seq![("en", "English"), ("es", "Español"), ("fr", "Français"), ("de", "Deutsch")]
}

/// The built-in languages are exactly the languages on offer: every code that
/// `available_languages` lists can be loaded from the built-in sources, and no
/// other code can.
pub proof fn lemma_offered_are_built_in(code: Seq<char>)
    ensures
        is_bundled_code(code) <==> exists|i: int| 0 <= i < offered_languages().len() && #[trigger] offered_languages()[i].0@ == code,
{
    let offered = offered_languages();
    if is_bundled_code(code) {
        if code == "en"@ {
            assert(offered[0].0@ == code);
        } else if code == "es"@ {
            assert(offered[1].0@ == code);
        } else if code == "fr"@ {
            assert(offered[2].0@ == code);
        } else {
            assert(offered[3].0@ == code);
        }
    }
}

/// The languages the program offers, as (code, name); each can be loaded from
/// the built-in sources.
pub fn available_languages() -> (r: Vec<(&'static str, &'static str)>)
    ensures
        r@ == seq![("en", "English"), ("es", "Español"), ("fr", "Français"), ("de", "Deutsch")],
        r@ == offered_languages(),
        forall|i: int| 0 <= i < r@.len() ==> is_bundled_code(#[trigger] r@[i].0@),
{
    let mut r: Vec<(&'static str, &'static str)> = Vec::new();
    r.push(("en", "English"));
    r.push(("es", "Español"));
    r.push(("fr", "Français"));
    r.push(("de", "Deutsch"));
    proof {
        assert(r@ =~= offered_languages());
        assert forall|i: int| 0 <= i < r@.len() implies is_bundled_code(#[trigger] r@[i].0@) by {
            lemma_offered_are_built_in(r@[i].0@);
        }
    }
    r
}

/// The codes of the languages whose FTL files are built into the program.
pub open spec fn is_bundled_code(code: Seq<char>) -> bool {
    code == "en"@ || code == "es"@ || code == "fr"@ || code == "de"@
}

fn same_text(a: &str, b: &str) -> (r: bool)
    ensures
        r == (a@ == b@),
{
    String::from_str(a) == String::from_str(b)
}

/// Whether `code` is one of the languages whose FTL files are built into the
/// program (`load_language` refuses the others for built-in sources).
pub fn is_bundled_language(code: &str) -> (r: bool)
    ensures
        r == is_bundled_code(code@),
        r <==> exists|i: int| 0 <= i < offered_languages().len() && #[trigger] offered_languages()[i].0@ == code@,
{
    proof { lemma_offered_are_built_in(code@); }
    same_text(code, "en") || same_text(code, "es") || same_text(code, "fr") || same_text(code, "de")
}

/// Why a language could not be loaded.
#[derive(Debug)]
pub enum I18nError {
    /// the language is not one of the built-in ones
    LanguageNotSupported,
    /// the language code is not a language identifier, with the parser's reason
    InvalidLanguageCode(String),
    /// the FTL source could not be read, with the reason
    SourceUnreadable(String),
}

/// Where a language's FTL source comes from.
#[derive(Debug, Clone, Copy, PartialEq, Eq, Structural)]
pub enum SourceKind {
    /// a file in the locales directory: any language code may be loaded
    File,
    /// the files built into the program: only the built-in languages
    BuiltIn,
}

/// A bundle made for the locale `language` from `source` alone: it is set up
/// for that locale with that one source, so its messages are what fluent
/// formats from the source in that language; its entries are those of the
/// source, and so are its messages with a value.
pub open spec fn built_from(bundle: fluent::FluentBundle<fluent::FluentResource>, language: Seq<char>, source: Seq<char>) -> bool {
    &&& bundle_setup(bundle) == Some((language, seq![source]))
    &&& bundle_messages(bundle) == ftl_messages(language, seq![source])
    &&& bundle_entry_ids(bundle) == ftl_entry_ids(source).to_set()
    &&& bundle_messages(bundle).dom() == ftl_message_ids(source)
    &&& bundle_messages(bundle).dom().subset_of(bundle_entry_ids(bundle))
    &&& forall|k: Seq<char>| #[trigger] bundle_entry_ids(bundle).contains(k) ==> is_ftl_identifier(k)
}

/// Two bundles that hold the same: the same locale and sources, entries and
/// messages.
pub open spec fn same_bundle(a: fluent::FluentBundle<fluent::FluentResource>, b: fluent::FluentBundle<fluent::FluentResource>) -> bool {
    &&& bundle_setup(a) == bundle_setup(b)
    &&& bundle_entry_ids(a) == bundle_entry_ids(b)
    &&& bundle_messages(a) == bundle_messages(b)
}

/// Whether loading `code` from a source of `kind` succeeds: the source kind
/// allows the language and the code is a language identifier.
pub open spec fn load_succeeds(code: Seq<char>, kind: SourceKind) -> bool {
    &&& kind == SourceKind::File || is_bundled_code(code)
    &&& language_tag(code) is Ok
}

/// The error that loading `code` from a source of `kind` ends in, where it
/// fails: a built-in source for a language that is not built in, or else a
/// code that is not a language identifier, with the parser's reason.
pub open spec fn load_refusal(code: Seq<char>, kind: SourceKind, e: I18nError) -> bool {
    if kind == SourceKind::BuiltIn && !is_bundled_code(code) {
        e is LanguageNotSupported
    } else {
        e matches I18nError::InvalidLanguageCode(reason) && refused_for(code, reason@)
    }
}

/// The bundles `after` are the bundles `before` with `code` loaded from
/// `source`: a bundle made for `code`'s language from that source alone is
/// stored under `code`, replacing one loaded before, and every other bundle
/// stays.
pub open spec fn loaded(
    before: Map<Seq<char>, fluent::FluentBundle<fluent::FluentResource>>,
    after: Map<Seq<char>, fluent::FluentBundle<fluent::FluentResource>>,
    code: Seq<char>,
    source: Seq<char>,
) -> bool {
    &&& language_tag(code) matches Ok(tag) && built_from(after[code], tag, source)
    &&& after.dom() == before.dom().insert(code)
    &&& forall|k: Seq<char>| k != code && #[trigger] before.contains_key(k) ==> after[k] == before[k]
}

/// Loading a language a second time from the same source leaves what loading
/// it once left: the same languages, and under each a bundle that holds the
/// same (the bundle loaded first is replaced, not merged or kept twice).
pub proof fn lemma_load_again(
    b0: Map<Seq<char>, fluent::FluentBundle<fluent::FluentResource>>,
    b1: Map<Seq<char>, fluent::FluentBundle<fluent::FluentResource>>,
    b2: Map<Seq<char>, fluent::FluentBundle<fluent::FluentResource>>,
    code: Seq<char>,
    source: Seq<char>,
)
    requires
        loaded(b0, b1, code, source),
        loaded(b1, b2, code, source),
    ensures
        b2.dom() == b1.dom(),
        forall|k: Seq<char>| #[trigger] b1.contains_key(k) ==> same_bundle(b1[k], b2[k]),
{
    assert(b2.dom() =~= b1.dom());
}

/// Once a language is loaded from `source` and in use, the text shown for a
/// key is what fluent formats that key's message to, in that language from
/// that source, or the key itself where the source has no such message.
pub proof fn lemma_message_after_load(
    bundles: Map<Seq<char>, fluent::FluentBundle<fluent::FluentResource>>,
    code: Seq<char>,
    tag: Seq<char>,
    source: Seq<char>,
    key: Seq<char>,
)
    requires
        bundles.contains_key(code),
        built_from(bundles[code], tag, source),
    ensures
        message_text(bundles, code, key) == (if ftl_messages(tag, seq![source]).contains_key(key) {
            ftl_messages(tag, seq![source])[key]
        } else {
            key
        }),
{
}

/// What `set_language` found.
#[derive(Debug, Clone, Copy, PartialEq, Eq, Structural)]
pub enum LanguageSwitch {
    /// the language was loaded and is now in use
    Switched,
    /// the language is not loaded: its FTL source is needed
    /// (`set_language_from_source`)
    SourceNeeded,
}

/// The text shown for `key` given the bundles and the language in use: the
/// message of that language's bundle, or the key itself when there is none.
pub open spec fn message_text(
    bundles: Map<Seq<char>, fluent::FluentBundle<fluent::FluentResource>>,
    current: Seq<char>,
    key: Seq<char>,
) -> Seq<char> {
    if bundles.contains_key(current) && bundle_messages(bundles[current]).contains_key(key) {
        bundle_messages(bundles[current])[key]
    } else {
        key
    }
}

type Entry = (String, fluent::FluentBundle<fluent::FluentResource>);

/// No language code occurs twice among `entries`.
spec fn distinct_codes(entries: Seq<Entry>) -> bool {
    forall|i: int, j: int|
        0 <= i < j < entries.len() ==> #[trigger] entries[i].0@ != #[trigger] entries[j].0@
}

/// The bundles of `entries` by language code.
spec fn code_map(entries: Seq<Entry>) -> Map<Seq<char>, fluent::FluentBundle<fluent::FluentResource>> {
    Map::new(
        |k: Seq<char>| exists|i: int| 0 <= i < entries.len() && #[trigger] entries[i].0@ == k,
        |k: Seq<char>| entries[choose|i: int| 0 <= i < entries.len() && #[trigger] entries[i].0@ == k].1,
    )
}

proof fn lemma_code_map_at(entries: Seq<Entry>, i: int)
    requires
        distinct_codes(entries),
        0 <= i < entries.len(),
    ensures
        code_map(entries).contains_key(entries[i].0@),
        code_map(entries)[entries[i].0@] == entries[i].1,
{
    let k = entries[i].0@;
    assert(code_map(entries).dom().contains(k));
    let j = choose|j: int| 0 <= j < entries.len() && #[trigger] entries[j].0@ == k;
    if j != i {
        if j < i {
            assert(entries[j].0@ != entries[i].0@);
        } else {
            assert(entries[i].0@ != entries[j].0@);
        }
    }
}

/// Replacing the bundle of the entry at `i` (keeping its code) replaces it in the map.
proof fn lemma_code_map_update(entries: Seq<Entry>, i: int, entry: Entry)
    requires
        distinct_codes(entries),
        0 <= i < entries.len(),
        entry.0@ == entries[i].0@,
    ensures
        distinct_codes(entries.update(i, entry)),
        code_map(entries.update(i, entry)) == code_map(entries).insert(entry.0@, entry.1),
{
    let e2 = entries.update(i, entry);
    assert forall|a: int, b: int| 0 <= a < b < e2.len() implies #[trigger] e2[a].0@ != #[trigger] e2[b].0@ by {
        assert(entries[a].0@ != entries[b].0@);
    }
    let m1 = code_map(e2);
    let m2 = code_map(entries).insert(entry.0@, entry.1);
    assert forall|k: Seq<char>| #[trigger] m1.contains_key(k) <==> m2.contains_key(k) by {
        if m1.contains_key(k) {
            let j = choose|j: int| 0 <= j < e2.len() && #[trigger] e2[j].0@ == k;
            if j != i {
                assert(entries[j].0@ == k);
            }
        }
        if m2.contains_key(k) && k != entry.0@ {
            let j = choose|j: int| 0 <= j < entries.len() && #[trigger] entries[j].0@ == k;
            assert(e2[j].0@ == k);
        }
        if k == entry.0@ {
            assert(e2[i].0@ == k);
        }
    }
    assert forall|k: Seq<char>| #[trigger] m1.contains_key(k) implies m1[k] == m2[k] by {
        let j = choose|j: int| 0 <= j < e2.len() && #[trigger] e2[j].0@ == k;
        lemma_code_map_at(e2, j);
        if j != i {
            lemma_code_map_at(entries, j);
        }
    }
    assert(m1 =~= m2);
}

/// Appending an entry with a new code adds it to the map.
proof fn lemma_code_map_push(entries: Seq<Entry>, entry: Entry)
    requires
        distinct_codes(entries),
        forall|i: int| 0 <= i < entries.len() ==> entries[i].0@ != entry.0@,
    ensures
        distinct_codes(entries.push(entry)),
        code_map(entries.push(entry)) == code_map(entries).insert(entry.0@, entry.1),
{
    let e2 = entries.push(entry);
    assert forall|a: int, b: int| 0 <= a < b < e2.len() implies #[trigger] e2[a].0@ != #[trigger] e2[b].0@ by {
        if b < entries.len() {
            assert(entries[a].0@ != entries[b].0@);
        } else {
            assert(e2[a] == entries[a]);
        }
    }
    let m1 = code_map(e2);
    let m2 = code_map(entries).insert(entry.0@, entry.1);
    assert forall|k: Seq<char>| #[trigger] m1.contains_key(k) <==> m2.contains_key(k) by {
        if m1.contains_key(k) {
            let j = choose|j: int| 0 <= j < e2.len() && #[trigger] e2[j].0@ == k;
            if j < entries.len() {
                assert(entries[j].0@ == k);
            }
        }
        if m2.contains_key(k) && k != entry.0@ {
            let j = choose|j: int| 0 <= j < entries.len() && #[trigger] entries[j].0@ == k;
            assert(e2[j].0@ == k);
        }
        if k == entry.0@ {
            assert(e2[entries.len() as int].0@ == k);
        }
    }
    assert forall|k: Seq<char>| #[trigger] m1.contains_key(k) implies m1[k] == m2[k] by {
        let j = choose|j: int| 0 <= j < e2.len() && #[trigger] e2[j].0@ == k;
        lemma_code_map_at(e2, j);
        if j < entries.len() {
            assert(e2[j] == entries[j]);
            lemma_code_map_at(entries, j);
        }
    }
    assert(m1 =~= m2);
}

/// The position of `code` among `entries`.
fn position_of(entries: &Vec<(String, fluent::FluentBundle<fluent::FluentResource>)>, code: &str) -> (r: Option<usize>)
    ensures
        r matches Some(i) ==> i < entries@.len() && entries@[i as int].0@ == code@,
        r is None ==> forall|i: int| 0 <= i < entries@.len() ==> entries@[i].0@ != code@,
{
    let key = String::from_str(code);
    let mut i: usize = 0;
    while i < entries.len()
        invariant
            key@ == code@,
            i <= entries@.len(),
            forall|j: int| 0 <= j < i ==> entries@[j].0@ != code@,
        decreases entries@.len() - i,
    {
        if entries[i].0 == key {
            return Some(i);
        }
        i += 1;
    }
    None
}

/// Builds the bundle of `code` from `source`; with it, whether fluent reported
/// no error on the source. Where `code` is not a language identifier, the
/// parser's reason.
fn build_bundle(code: &str, source: String) -> (r: Result<(fluent::FluentBundle<fluent::FluentResource>, bool), String>)
    ensures
        r is Ok == language_tag(code@) is Ok,
        r matches Err(reason) ==> refused_for(code@, reason@),
        r matches Ok((bundle, clean)) ==> {
            &&& language_tag(code@) matches Ok(tag) && built_from(bundle, tag, source@)
            &&& clean == ftl_entry_ids(source@).no_duplicates()
        },
        is_bundled_code(code@) ==> r is Ok && parses_to(code@, code@),
{
    let ghost text = source@;
    let resource = resource_from_source(source);
    let mut bundle = match new_bundle_for(code) {
        Ok(bundle) => bundle,
        Err(reason) => return Err(reason),
    };
    let clean = add_resource(&mut bundle, resource);
    assert(Seq::<Seq<char>>::empty().push(text) =~= seq![text]);
    assert(bundle_entry_ids(bundle) =~= ftl_entry_ids(text).to_set());
    assert(bundle_messages(bundle).dom() =~= ftl_message_ids(text));
    Ok((bundle, clean))
}

/// Bundles by language code, and the code of the language in use.
pub struct I18n {
    entries: Vec<(String, fluent::FluentBundle<fluent::FluentResource>)>,
    current_language: String,
}

impl I18n {
    /// What every catalogue made by `new` and kept up by the methods here
    /// satisfies: no language code occurs twice, and the language in use has a
    /// bundle.
    pub closed spec fn wf(self) -> bool {
        &&& distinct_codes(self.entries@)
        &&& code_map(self.entries@).contains_key(self.current_language@)
    }

    /// The language in use always has a bundle.
    pub proof fn lemma_in_use_loaded(self)
        requires
            self.wf(),
        ensures
            self.bundles().contains_key(self.current()),
    {
    }

    /// The loaded bundles, by language code.
    pub closed spec fn bundles(self) -> Map<Seq<char>, fluent::FluentBundle<fluent::FluentResource>> {
        code_map(self.entries@)
    }

    /// The code of the language in use.
    pub closed spec fn current(self) -> Seq<char> {
        self.current_language@
    }

    proof fn lemma_bundle_at(self, i: int)
        requires
            self.wf(),
            0 <= i < self.entries@.len(),
        ensures
            self.bundles().contains_key(self.entries@[i].0@),
            self.bundles()[self.entries@[i].0@] == self.entries@[i].1,
    {
        lemma_code_map_at(self.entries@, i);
    }

    /// Starts with English, from its FTL source, as the language in use. The
    /// English bundle is made for the locale `en` and holds what parses of the
    /// source (syntax errors are skipped); `None` where the bundle reports an
    /// error, an id that occurs twice in the source.
    pub fn new(english_source: String) -> (r: Option<I18n>)
        ensures
            r is Some == ftl_entry_ids(english_source@).no_duplicates(),
            r matches Some(i18n) ==> {
                &&& i18n.wf()
                &&& i18n.current() == "en"@
                &&& i18n.bundles().dom() == set!["en"@]
                &&& built_from(i18n.bundles()["en"@], "en"@, english_source@)
                &&& i18n.bundles().contains_key(i18n.current())
            },
    {
        proof { reveal_strlit("en"); }
        let (bundle, clean) = match build_bundle("en", english_source) {
            Ok(built) => built,
            Err(_) => return None,
        };
        if !clean {
            return None;
        }
        let mut entries: Vec<(String, fluent::FluentBundle<fluent::FluentResource>)> = Vec::new();
        entries.push((String::from_str("en"), bundle));
        proof { lemma_code_map_at(entries@, 0); }
        let i18n = I18n { entries, current_language: String::from_str("en") };
        proof {
            i18n.lemma_bundle_at(0);
            assert(i18n.bundles().dom() =~= set!["en"@]);
        }
        Some(i18n)
    }

    /// The code of the language in use, which always has a bundle.
    pub fn current_language(&self) -> (r: &str)
        requires
            self.wf(),
        ensures
            r@ == self.current(),
            self.bundles().contains_key(r@),
    {
        self.current_language.as_str()
    }

    /// Whether a bundle for `code` is loaded.
    pub fn has_language(&self, code: &str) -> (r: bool)
        requires
            self.wf(),
        ensures
            r == self.bundles().contains_key(code@),
    {
        match position_of(&self.entries, code) {
            Some(i) => {
                proof { self.lemma_bundle_at(i as int); }
                true
            },
            None => false,
        }
    }

    /// Builds the bundle of `lang_code` from its FTL source, for that language,
    /// and stores it under that code, replacing a bundle loaded before. Errors
    /// of the source are tolerated (what parses is kept); the result is
    /// `Ok(false)` where fluent reported some (an id that occurs twice). A
    /// built-in source is refused for a code that is not one of the built-in
    /// languages; a code that is not a language identifier is refused; in both
    /// cases nothing changes.
    pub fn load_language(&mut self, lang_code: &str, source: String, kind: SourceKind) -> (r: Result<bool, I18nError>)
        requires
            old(self).wf(),
        ensures
            final(self).wf(),
            r is Ok == load_succeeds(lang_code@, kind),
            is_bundled_code(lang_code@) ==> r is Ok && parses_to(lang_code@, lang_code@),
            r matches Err(e) ==> load_refusal(lang_code@, kind, e),
            r matches Ok(clean) ==> clean == ftl_entry_ids(source@).no_duplicates(),
            r is Ok ==> loaded(old(self).bundles(), final(self).bundles(), lang_code@, source@),
            r is Err ==> final(self).bundles() == old(self).bundles(),
            final(self).current() == old(self).current(),
            final(self).bundles().contains_key(final(self).current()),
    {
        match kind {
            SourceKind::BuiltIn => {
                if !is_bundled_language(lang_code) {
                    return Err(I18nError::LanguageNotSupported);
                }
            },
            SourceKind::File => {},
        }
        let (bundle, clean) = match build_bundle(lang_code, source) {
            Ok(built) => built,
            Err(reason) => return Err(I18nError::InvalidLanguageCode(reason)),
        };
        let entry = (String::from_str(lang_code), bundle);
        match position_of(&self.entries, lang_code) {
            Some(i) => {
                proof { lemma_code_map_update(self.entries@, i as int, entry); }
                self.entries[i] = entry;
            },
            None => {
                proof { lemma_code_map_push(self.entries@, entry); }
                self.entries.push(entry);
            },
        }
        Ok(clean)
    }

    /// Switches to `lang_code` if its bundle is loaded; otherwise leaves
    /// everything as it is and asks for the language's FTL source.
    pub fn set_language(&mut self, lang_code: &str) -> (r: LanguageSwitch)
        requires
            old(self).wf(),
        ensures
            final(self).wf(),
            final(self).bundles() == old(self).bundles(),
            old(self).bundles().contains_key(lang_code@) ==> r == LanguageSwitch::Switched && final(self).current() == lang_code@,
            !old(self).bundles().contains_key(lang_code@) ==> r == LanguageSwitch::SourceNeeded && final(self).current() == old(self).current(),
            final(self).bundles().contains_key(final(self).current()),
    {
        if self.has_language(lang_code) {
            self.current_language = String::from_str(lang_code);
            LanguageSwitch::Switched
        } else {
            LanguageSwitch::SourceNeeded
        }
    }

    /// Switches to `lang_code`, loading it from `source` first if it is not
    /// loaded yet (a loaded language is not loaded again, and the result is
    /// then `Ok(true)`). When loading fails, nothing changes.
    pub fn set_language_from_source(&mut self, lang_code: &str, source: String, kind: SourceKind) -> (r: Result<bool, I18nError>)
        requires
            old(self).wf(),
        ensures
            final(self).wf(),
            old(self).bundles().contains_key(lang_code@) ==> (r matches Ok(true) && final(self).bundles() == old(self).bundles()),
            !old(self).bundles().contains_key(lang_code@) ==> {
                &&& r is Ok == load_succeeds(lang_code@, kind)
                &&& r matches Err(e) ==> load_refusal(lang_code@, kind, e)
                &&& r matches Ok(clean) ==> clean == ftl_entry_ids(source@).no_duplicates()
                &&& r is Ok ==> loaded(old(self).bundles(), final(self).bundles(), lang_code@, source@)
            },
            is_bundled_code(lang_code@) ==> r is Ok,
            r is Ok ==> final(self).current() == lang_code@,
            r is Err ==> final(self).bundles() == old(self).bundles() && final(self).current() == old(self).current(),
            final(self).bundles().contains_key(final(self).current()),
    {
        let clean = if self.has_language(lang_code) {
            true
        } else {
            match self.load_language(lang_code, source, kind) {
                Ok(clean) => clean,
                Err(e) => return Err(e),
            }
        };
        self.current_language = String::from_str(lang_code);
        Ok(clean)
    }

    /// The text of message `key` in the language in use, or `key` itself when
    /// that language has no bundle or its bundle no such message.
    pub fn get_message(&self, key: &str) -> (r: String)
        requires
            self.wf(),
        ensures
            r@ == message_text(self.bundles(), self.current(), key@),
    {
        match position_of(&self.entries, self.current_language.as_str()) {
            Some(i) => {
                proof { self.lemma_bundle_at(i as int); }
                match format_message(&self.entries[i].1, key) {
                    Some(text) => text,
                    None => String::from_str(key),
                }
            },
            None => String::from_str(key),
        }
    }
}

} // verus!