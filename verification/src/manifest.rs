//! The package manifest as a document that keeps its formatting, and the
//! rewriting of the version pins in its `dependencies` section.
//!
//! The document is toml_edit's. Of what it holds, the contracts here speak of
//! the entries of the `dependencies` section and of the text it is written
//! out as.

use vstd::prelude::*;
use crate::types::{Crate, UpdateError};

verus! {

/// toml_edit's editable document.
#[verifier::external_type_specification]
#[verifier::external_body]
pub struct ExDocumentMut(toml_edit::DocumentMut);

/// The error that toml_edit's parser returns.
#[verifier::external_type_specification]
#[verifier::external_body]
pub struct ExTomlError(toml_edit::TomlError);

/// A value in the manifest, as far as the updater tells values apart.
pub enum Field {
    /// A string, with its content.
    Text(Seq<char>),
    /// Anything else, with the text it is written as.
    Other(Seq<char>),
}

/// One entry of the `dependencies` section.
pub enum Entry {
    /// `name = value`, where the value is no table: for a dependency, the
    /// bare version requirement.
    Bare(Field),
    /// A table, written inline or under a header of its own, with its fields
    /// by key.
    Table(Map<Seq<char>, Field>),
}

/// What the contracts say of a manifest: the entries of its `dependencies`
/// section by name, and the text it is written out as.
pub struct ManifestView {
    pub entries: Map<Seq<char>, Entry>,
    pub text: Seq<char>,
}

/// The entries of the `dependencies` section of a document, by name: for each
/// key under which `Item::get` finds an item there, a `Table` with its fields
/// where the item is a table, and a `Bare` value otherwise. The map is empty
/// where the document has no such section.
pub uninterp spec fn declared_entries(document: toml_edit::DocumentMut) -> Map<Seq<char>, Entry>;

/// The text that a document is written out as by its `to_string`.
pub uninterp spec fn rendered(document: toml_edit::DocumentMut) -> Seq<char>;

/// What toml_edit's parser makes of a text: the entries and the text of the
/// document it reads, or `None` where it rejects the text.
pub uninterp spec fn parsed_manifest(text: Seq<char>) -> Option<ManifestView>;

/// Parses a text with `str::parse::<toml_edit::DocumentMut>`. Nothing is
/// claimed of the document but that its entries, and the text it is written
/// out as, are those of the document that the parser reads from this text.
#[verifier::external_body]
fn toml_parse(text: &str) -> (r: Result<toml_edit::DocumentMut, toml_edit::TomlError>)
    ensures
        match r {
            Ok(document) => parsed_manifest(text@) == Some(
                ManifestView { entries: declared_entries(document), text: rendered(document) },
            ),
            Err(_) => parsed_manifest(text@) is None,
        },
{
    text.parse::<toml_edit::DocumentMut>()
}

/// Writes a document out with its `to_string`.
#[verifier::external_body]
fn toml_render(document: &toml_edit::DocumentMut) -> (text: String)
    ensures
        text@ == rendered(*document),
{
    document.to_string()
}

/// Looks an entry up with `Table::get` for the section and `Item::get` for
/// the name, neither of which changes the document: whether the
/// `dependencies` section has an entry of this name.
#[verifier::external_body]
fn toml_has_entry(document: &toml_edit::DocumentMut, name: &str) -> (present: bool)
    ensures
        present == declared_entries(*document).contains_key(name@),
{
    document.get("dependencies").and_then(|section| section.get(name)).is_some()
}

/// `Item::is_table_like` on an entry that is there: whether it is a table,
/// inline or not.
#[verifier::external_body]
fn toml_entry_is_table(document: &toml_edit::DocumentMut, name: &str) -> (table: bool)
    requires
        declared_entries(*document).contains_key(name@),
    ensures
        table == (declared_entries(*document)[name@] is Table),
{
    document["dependencies"][name].is_table_like()
}

/// `Item::get` on an entry that is a table: whether it has a field `version`.
#[verifier::external_body]
fn toml_entry_has_version(document: &toml_edit::DocumentMut, name: &str) -> (present: bool)
    requires
        declared_entries(*document).contains_key(name@),
        declared_entries(*document)[name@] is Table,
    ensures
        present == declared_entries(*document)[name@]->Table_0.contains_key("version"@),
{
    document["dependencies"][name].get("version").is_some()
}

/// Assigns `toml_edit::value(version)`, a string, to an entry that is there.
/// The entry is then that bare string, and no other entry has changed.
#[verifier::external_body]
fn toml_set_entry(document: &mut toml_edit::DocumentMut, name: &str, version: &str)
    requires
        declared_entries(*old(document)).contains_key(name@),
    ensures
        declared_entries(*final(document)) == declared_entries(*old(document)).insert(
            name@,
            Entry::Bare(Field::Text(version@)),
        ),
{
    document["dependencies"][name] = toml_edit::value(version);
}

/// Assigns `toml_edit::value(version)`, a string, to the field `version` of
/// an entry that is a table and has that field. No other field of the table
/// and no other entry has changed.
#[verifier::external_body]
fn toml_set_entry_version(document: &mut toml_edit::DocumentMut, name: &str, version: &str)
    requires
        declared_entries(*old(document)).contains_key(name@),
        declared_entries(*old(document))[name@] is Table,
        declared_entries(*old(document))[name@]->Table_0.contains_key("version"@),
    ensures
        declared_entries(*final(document)) == declared_entries(*old(document)).insert(
            name@,
            Entry::Table(
                declared_entries(*old(document))[name@]->Table_0.insert(
                    "version"@,
                    Field::Text(version@),
                ),
            ),
        ),
{
    document["dependencies"][name]["version"] = toml_edit::value(version);
}

/// Whether an update of the dependency `name` changes anything: it does
/// where the section has an entry of that name which is a bare value or a
/// table with a `version` field.
pub open spec fn pins(entries: Map<Seq<char>, Entry>, name: Seq<char>) -> bool {
    entries.contains_key(name) && match entries[name] {
        Entry::Bare(_) => true,
        Entry::Table(fields) => fields.contains_key("version"@),
    }
}

/// An entry after its version has been set: a bare value gives way to the
/// version as a whole, and a table gets it as its `version` field where it has
/// one, with every other field as it was.
pub open spec fn bumped_entry(entry: Entry, version: Seq<char>) -> Entry {
    match entry {
        Entry::Bare(_) => Entry::Bare(Field::Text(version)),
        Entry::Table(fields) => if fields.contains_key("version"@) {
            Entry::Table(fields.insert("version"@, Field::Text(version)))
        } else {
            entry
        },
    }
}

/// The entries after the version of the dependency `name` has been set. A
/// name that the section does not have is not added.
pub open spec fn bumped(entries: Map<Seq<char>, Entry>, name: Seq<char>, version: Seq<char>) -> Map<
    Seq<char>,
    Entry,
> {
    if entries.contains_key(name) {
        entries.insert(name, bumped_entry(entries[name], version))
    } else {
        entries
    }
}

/// The entries after every crate of `resolved` that has an update has had its
/// recommended version set, in the order of `resolved`.
pub open spec fn updated(entries: Map<Seq<char>, Entry>, resolved: Seq<Crate>) -> Map<
    Seq<char>,
    Entry,
>
    decreases resolved.len(),
{
    if resolved.len() == 0 {
        entries
    } else if resolved.last().update_available {
        bumped(
            updated(entries, resolved.drop_last()),
            resolved.last().name@,
            resolved.last().latest_version@,
        )
    } else {
        updated(entries, resolved.drop_last())
    }
}

/// Whether no crate of `resolved` that has an update is pinned in `entries`.
pub open spec fn nothing_to_update(entries: Map<Seq<char>, Entry>, resolved: Seq<Crate>) -> bool {
    forall|i: int|
        0 <= i < resolved.len() && resolved[i].update_available ==> !pins(
            entries,
            #[trigger] resolved[i].name@,
        )
}

/// A manifest that has been read and can be edited and written out again.
pub struct Manifest {
    document: toml_edit::DocumentMut,
}

impl View for Manifest {
    type V = ManifestView;

    closed spec fn view(&self) -> ManifestView {
        ManifestView { entries: declared_entries(self.document), text: rendered(self.document) }
    }
}

/// Whether `text` is the manifest `source` after the updates of `resolved`:
/// the text that a manifest with the updated entries is written out as, and
/// the text of the manifest as it was read where nothing was there to update.
pub open spec fn is_update_of(text: Seq<char>, source: Seq<char>, resolved: Seq<Crate>) -> bool {
    &&& parsed_manifest(source) matches Some(read)
    &&& exists|manifest: Manifest|
        manifest@.entries == updated(read.entries, resolved) && #[trigger] manifest@.text == text
    &&& nothing_to_update(read.entries, resolved) ==> text == read.text
}

impl Manifest {
    /// Reads a manifest from its text.
    pub fn parse(text: &str) -> (r: Result<Manifest, UpdateError>)
        ensures
            match r {
                Ok(manifest) => parsed_manifest(text@) == Some(manifest@),
                Err(e) => e == UpdateError::ManifestParseError && parsed_manifest(text@) is None,
            },
    {
        match toml_parse(text) {
            Ok(document) => Ok(Manifest { document }),
            Err(_) => Err(UpdateError::ManifestParseError),
        }
    }

    /// Sets the version of the dependency `name`, if the `dependencies`
    /// section pins it. Returns whether it does; where it does not, the
    /// manifest is left as it was.
    pub fn set_version(&mut self, name: &str, version: &str) -> (changed: bool)
        ensures
            changed == pins(old(self)@.entries, name@),
            final(self)@.entries == bumped(old(self)@.entries, name@, version@),
            !changed ==> *final(self) == *old(self),
    {
        if !toml_has_entry(&self.document, name) {
            false
        } else if !toml_entry_is_table(&self.document, name) {
            toml_set_entry(&mut self.document, name, version);
            true
        } else if toml_entry_has_version(&self.document, name) {
            toml_set_entry_version(&mut self.document, name, version);
            true
        } else {
            assert(self@.entries =~= bumped(self@.entries, name@, version@));
            false
        }
    }

    /// Sets the recommended version of every crate of `resolved` that has an
    /// update, in order. Crates without an update, and crates that the
    /// `dependencies` section does not pin, change nothing.
    pub fn apply_updates(&mut self, resolved: &[Crate])
        ensures
            final(self)@.entries == updated(old(self)@.entries, resolved@),
            nothing_to_update(old(self)@.entries, resolved@) ==> *final(self) == *old(self),
    {
        let mut i: usize = 0;
        while i < resolved.len()
            invariant
                i <= resolved.len(),
                self@.entries == updated(old(self)@.entries, resolved@.take(i as int)),
                nothing_to_update(old(self)@.entries, resolved@.take(i as int)) ==> *self == *old(
                    self,
                ),
            decreases resolved.len() - i,
        {
            proof {
                let before = resolved@.take(i as int);
                let upto = resolved@.take(i + 1);
                assert(upto.drop_last() =~= before);
                if nothing_to_update(old(self)@.entries, upto) {
                    assert forall|j: int|
                        0 <= j < before.len() && before[j].update_available implies !pins(
                        old(self)@.entries,
                        #[trigger] before[j].name@,
                    ) by {
                        assert(upto[j] == before[j]);
                    }
                    assert(upto[i as int].update_available ==> !pins(
                        old(self)@.entries,
                        upto[i as int].name@,
                    ));
                }
            }
            if resolved[i].update_available {
                self.set_version(resolved[i].name.as_str(), resolved[i].latest_version.as_str());
            }
            i += 1;
        }
        assert(resolved@.take(resolved.len() as int) =~= resolved@);
    }

    /// Writes the manifest out.
    pub fn render(&self) -> (text: String)
        ensures
            text@ == self@.text,
    {
        toml_render(&self.document)
    }
}

/// An update keeps the names of the section: it adds no entry and removes
/// none.
pub proof fn lemma_update_keeps_names(entries: Map<Seq<char>, Entry>, resolved: Seq<Crate>)
    ensures
        updated(entries, resolved).dom() == entries.dom(),
    decreases resolved.len(),
{
    if resolved.len() > 0 {
        lemma_update_keeps_names(entries, resolved.drop_last());
    }
}

/// An update leaves every entry as it was whose name is not that of a crate
/// with an update.
pub proof fn lemma_update_keeps_other_entries(
    entries: Map<Seq<char>, Entry>,
    resolved: Seq<Crate>,
    name: Seq<char>,
)
    requires
        entries.contains_key(name),
        forall|i: int|
            0 <= i < resolved.len() && resolved[i].update_available
                ==> #[trigger] resolved[i].name@ != name,
    ensures
        updated(entries, resolved).contains_key(name),
        updated(entries, resolved)[name] == entries[name],
    decreases resolved.len(),
{
    if resolved.len() > 0 {
        let rest = resolved.drop_last();
        assert forall|i: int| 0 <= i < rest.len() && rest[i].update_available implies
            #[trigger] rest[i].name@ != name by {
            assert(rest[i] == resolved[i]);
        }
        lemma_update_keeps_other_entries(entries, rest, name);
    }
}

/// Where the section pins none of the crates that have an update, because
/// they are not there or are tables without a `version` field, the update
/// changes no entry.
pub proof fn lemma_nothing_to_update_changes_nothing(
    entries: Map<Seq<char>, Entry>,
    resolved: Seq<Crate>,
)
    requires
        nothing_to_update(entries, resolved),
    ensures
        updated(entries, resolved) == entries,
    decreases resolved.len(),
{
    if resolved.len() > 0 {
        let rest = resolved.drop_last();
        let last = resolved[resolved.len() - 1];
        assert forall|i: int| 0 <= i < rest.len() && rest[i].update_available implies !pins(
            entries,
            #[trigger] rest[i].name@,
        ) by {
            assert(rest[i] == resolved[i]);
        }
        lemma_nothing_to_update_changes_nothing(entries, rest);
        if last.update_available {
            assert(bumped(entries, last.name@, last.latest_version@) =~= entries);
        }
    }
}

/// After an update, the entry that a crate with an update names holds the
/// recommended version of the last such crate: a bare value has given way to
/// it, and a table with a `version` field holds it in that field, with its
/// other fields as they were.
pub proof fn lemma_update_sets_the_last_recommendation(
    entries: Map<Seq<char>, Entry>,
    resolved: Seq<Crate>,
    last: int,
)
    requires
        0 <= last < resolved.len(),
        resolved[last].update_available,
        entries.contains_key(resolved[last].name@),
        forall|i: int|
            last < i < resolved.len() && resolved[i].update_available
                ==> #[trigger] resolved[i].name@ != resolved[last].name@,
    ensures
        updated(entries, resolved).contains_key(resolved[last].name@),
        updated(entries, resolved)[resolved[last].name@] == bumped_entry(
            entries[resolved[last].name@],
            resolved[last].latest_version@,
        ),
    decreases resolved.len(),
{
    let name = resolved[last].name@;
    let version = resolved[last].latest_version@;
    let rest = resolved.drop_last();
    if last == resolved.len() - 1 {
        lemma_entry_keeps_its_kind(entries, rest, name);
        if let Entry::Table(fields) = entries[name] {
            let before = updated(entries, rest)[name]->Table_0;
            if fields.contains_key("version"@) {
                assert(before.insert("version"@, Field::Text(version)) =~= fields.insert(
                    "version"@,
                    Field::Text(version),
                ));
            } else {
                assert(before =~= fields);
            }
        }
    } else {
        assert forall|i: int| last < i < rest.len() && rest[i].update_available implies
            #[trigger] rest[i].name@ != name by {
            assert(rest[i] == resolved[i]);
        }
        lemma_update_sets_the_last_recommendation(entries, rest, last);
    }
}

/// However often an entry has had a version set, it is of the kind it was: a
/// bare value stays one, and a table keeps its fields but for the value of
/// `version`.
proof fn lemma_entry_keeps_its_kind(
    entries: Map<Seq<char>, Entry>,
    resolved: Seq<Crate>,
    name: Seq<char>,
)
    requires
        entries.contains_key(name),
    ensures
        updated(entries, resolved).contains_key(name),
        entries[name] is Bare ==> updated(entries, resolved)[name] is Bare,
        entries[name] matches Entry::Table(fields) ==> (updated(entries, resolved)[name]
            matches Entry::Table(now) && now.dom() == fields.dom() && forall|key: Seq<char>|
            key != "version"@ && fields.contains_key(key) ==> #[trigger] now[key] == fields[key]),
    decreases resolved.len(),
{
    if resolved.len() > 0 {
        lemma_entry_keeps_its_kind(entries, resolved.drop_last(), name);
    }
}

} // verus!
