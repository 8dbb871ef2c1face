//! Entry-point declarations of a package: the table of sections read from its
//! `entry_points.txt`, and the console scripts declared there.

use vstd::prelude::*;
use vstd::string::StrSliceExecFns;
use vstd::string::StringExecFns;
use crate::text::find_first;
use crate::text::same_text;

verus! {

/// The name of the section that declares command-line launchers.
pub const CONSOLE_SCRIPTS: &'static str = "console_scripts";

/// One `key = value` line of a section. A line without a delimiter declares a
/// key with no value.
#[derive(Debug, PartialEq, Eq)]
pub struct Entry {
    pub key: String,
    pub value: Option<String>,
}

/// One named section with its entries.
#[derive(Debug, PartialEq, Eq)]
pub struct Section {
    pub name: String,
    pub entries: Vec<Entry>,
}

/// The sections of one entry-point file.
#[derive(Debug, PartialEq, Eq)]
pub struct EntryPointTable {
    pub sections: Vec<Section>,
}

/// A console script: the command to create, and the function it runs.
#[derive(Debug, PartialEq, Eq)]
pub struct EntryPoint {
    pub command_name: String,
    pub module: String,
    pub function: String,
}

/// The text of an entry-point file could not be read as sections of entries.
#[derive(Debug, PartialEq, Eq)]
pub struct ParseError {
    /// The package whose file it was.
    pub package: String,
    /// What the parser objected to.
    pub detail: String,
}

pub struct EntryView {
    pub key: Seq<char>,
    pub value: Option<Seq<char>>,
}

pub struct SectionView {
    pub name: Seq<char>,
    pub entries: Seq<EntryView>,
}

pub struct TableView {
    pub sections: Seq<SectionView>,
}

pub struct EntryPointView {
    pub command_name: Seq<char>,
    pub module: Seq<char>,
    pub function: Seq<char>,
}

pub struct ParseErrorView {
    pub package: Seq<char>,
    pub detail: Seq<char>,
}

/// The characters of an optional text.
pub open spec fn text_of(value: Option<String>) -> Option<Seq<char>> {
    match value {
        Some(text) => Some(text@),
        None => None,
    }
}

impl View for Entry {
    type V = EntryView;

    open spec fn view(&self) -> EntryView {
        EntryView { key: self.key@, value: text_of(self.value) }
    }
}

impl DeepView for Entry {
    type V = EntryView;

    open spec fn deep_view(&self) -> EntryView {
        self@
    }
}

impl View for Section {
    type V = SectionView;

    open spec fn view(&self) -> SectionView {
        SectionView { name: self.name@, entries: self.entries.deep_view() }
    }
}

impl DeepView for Section {
    type V = SectionView;

    open spec fn deep_view(&self) -> SectionView {
        self@
    }
}

impl View for EntryPointTable {
    type V = TableView;

    open spec fn view(&self) -> TableView {
        TableView { sections: self.sections.deep_view() }
    }
}

impl View for EntryPoint {
    type V = EntryPointView;

    open spec fn view(&self) -> EntryPointView {
        EntryPointView {
            command_name: self.command_name@,
            module: self.module@,
            function: self.function@,
        }
    }
}

impl View for ParseError {
    type V = ParseErrorView;

    open spec fn view(&self) -> ParseErrorView {
        ParseErrorView { package: self.package@, detail: self.detail@ }
    }
}

/// The text of a parse error: the package and the parser's complaint.
pub open spec fn parse_error_text(error: ParseErrorView) -> Seq<char> {
    error.package + " entry_points.txt is invalid: "@ + error.detail
}

impl ParseError {
    /// The error as one line of text.
    pub fn message(&self) -> (text: String)
        ensures
            text@ == parse_error_text(self@),
    {
        let mut text = self.package.clone();
        text.append(" entry_points.txt is invalid: ");
        text.append(self.detail.as_str());
        text
    }
}

/// No key occurs twice among the entries.
pub open spec fn distinct_keys(entries: Seq<EntryView>) -> bool {
    forall|i: int, j: int| 0 <= i < j < entries.len() ==> entries[i].key != entries[j].key
}

/// Whether an entry with that key is among the entries.
pub open spec fn has_key(entries: Seq<EntryView>, key: Seq<char>) -> bool {
    exists|i: int| 0 <= i < entries.len() && entries[i].key == key
}

/// The entries as a mapping from key to value.
pub open spec fn entries_map(entries: Seq<EntryView>) -> Map<Seq<char>, Option<Seq<char>>> {
    Map::new(
        |key: Seq<char>| has_key(entries, key),
        |key: Seq<char>| entries[choose|i: int| 0 <= i < entries.len() && entries[i].key == key].value,
    )
}

impl TableView {
    /// No section name occurs twice, and within a section no key does.
    pub open spec fn wf(self) -> bool {
        &&& forall|i: int, j: int|
            0 <= i < j < self.sections.len() ==> self.sections[i].name != self.sections[j].name
        &&& forall|i: int| 0 <= i < self.sections.len() ==> distinct_keys(self.sections[i].entries)
    }

    /// Whether the table has a section of that name.
    pub open spec fn has_section(self, name: Seq<char>) -> bool {
        exists|i: int| 0 <= i < self.sections.len() && self.sections[i].name == name
    }

    /// The position of the first section of that name at or after `from`, or
    /// the number of sections if there is none.
    pub open spec fn position(self, name: Seq<char>, from: int) -> int
        decreases self.sections.len() - from,
    {
        if from < 0 || from >= self.sections.len() {
            self.sections.len() as int
        } else if self.sections[from].name == name {
            from
        } else {
            self.position(name, from + 1)
        }
    }

    /// The entries of the section of that name; none if the table has no such
    /// section.
    pub open spec fn entries_of(self, name: Seq<char>) -> Seq<EntryView> {
        if self.position(name, 0) < self.sections.len() {
            self.sections[self.position(name, 0)].entries
        } else {
            Seq::empty()
        }
    }

    /// The table as a mapping from section name to the mapping of that
    /// section.
    pub open spec fn as_map(self) -> Map<Seq<char>, Map<Seq<char>, Option<Seq<char>>>> {
        Map::new(
            |name: Seq<char>| self.has_section(name),
            |name: Seq<char>| entries_map(self.entries_of(name)),
        )
    }
}

/// What reading `text` as a case-sensitive INI file gives: the mapping from
/// section name to the mapping from key to value, or the parser's complaint.
pub uninterp spec fn ini_parse(text: Seq<char>) -> Result<
    Map<Seq<char>, Map<Seq<char>, Option<Seq<char>>>>,
    Seq<char>,
>;

/// Trusted: `configparser::ini::Ini::read` on a parser made by
/// `Ini::new_cs()`, which keeps the case of section names and keys. The
/// parser returns nested hash maps, or a message for a line it cannot read;
/// what it returns depends on the text alone. The contract gives that result
/// the name [`ini_parse`]. The hash maps are handed out as lists, each
/// section and each key once, in the order in which the maps are walked,
/// which is not fixed.
#[verifier::external_body]
fn read_ini(text: &str) -> (parsed: Result<EntryPointTable, String>)
    ensures
        match parsed {
            Ok(table) => table@.wf() && ini_parse(text@) == Ok::<_, Seq<char>>(table@.as_map()),
            Err(detail) => ini_parse(text@) == Err::<
                Map<Seq<char>, Map<Seq<char>, Option<Seq<char>>>>,
                _,
            >(detail@),
        },
{
    match configparser::ini::Ini::new_cs().read(text.to_owned()) {
        Ok(map) => Ok(
            EntryPointTable {
                sections: map.into_iter().map(
                    |(name, keys)| Section {
                        name,
                        entries: keys.into_iter().map(|(key, value)| Entry { key, value }).collect(),
                    },
                ).collect(),
            },
        ),
        Err(detail) => Err(detail),
    }
}

/// The outcome of a parse for `package`, given what the parser said: its table,
/// or its complaint together with the package name.
pub fn parse_outcome(
    package: &str,
    parsed: Result<EntryPointTable, String>,
) -> (outcome: Result<EntryPointTable, ParseError>)
    ensures
        match parsed {
            Ok(table) => outcome == Ok::<_, ParseError>(table),
            Err(detail) => outcome is Err && outcome->Err_0.package@ == package@
                && outcome->Err_0.detail@ == detail@,
        },
{
    match parsed {
        Ok(table) => Ok(table),
        Err(detail) => Err(ParseError { package: String::from_str(package), detail }),
    }
}

/// Parses the text of the entry-point file of `package`. It succeeds exactly
/// when the INI parser accepts the text, and then hands back the parser's
/// mapping with each section and key once; otherwise the error carries the
/// parser's complaint and the package name.
pub fn parse_entry_points(
    package: &str,
    text: &str,
) -> (outcome: Result<EntryPointTable, ParseError>)
    ensures
        match outcome {
            Ok(table) => table@.wf() && ini_parse(text@) == Ok::<_, Seq<char>>(table@.as_map()),
            Err(error) => error.package@ == package@ && ini_parse(text@) == Err::<
                Map<Seq<char>, Map<Seq<char>, Option<Seq<char>>>>,
                _,
            >(error.detail@),
        },
{
    parse_outcome(package, read_ini(text))
}

/// The two sides of the first `:` of a console-script value: the module to
/// import from, and the function to run. None if the value holds no `:`.
pub open spec fn target_of(value: Seq<char>) -> Option<(Seq<char>, Seq<char>)> {
    match value.index_of_first(':') {
        Some(at) => Some((value.subrange(0, at), value.subrange(at + 1, value.len() as int))),
        None => None,
    }
}

/// The console script that an entry declares, if its value names a target.
pub open spec fn entry_point_of(entry: EntryView) -> Option<EntryPointView> {
    match entry.value {
        Some(value) => match target_of(value) {
            Some((module, function)) => Some(
                EntryPointView { command_name: entry.key, module, function },
            ),
            None => None,
        },
        None => None,
    }
}

/// The view of an optional console script.
pub open spec fn entry_point_view(found: Option<EntryPoint>) -> Option<EntryPointView> {
    match found {
        Some(script) => Some(script@),
        None => None,
    }
}

/// A value splits into `module` and `function` exactly when it is the two
/// joined by a `:` and `module` holds no `:` itself; it does not split
/// exactly when it holds no `:` at all.
pub proof fn lemma_target_splits_at_first_colon(
    value: Seq<char>,
    module: Seq<char>,
    function: Seq<char>,
)
    ensures
        target_of(value) == Some((module, function)) <==> (value == module + seq![':'] + function
            && !module.contains(':')),
        target_of(value) is None <==> !value.contains(':'),
{
    value.index_of_first_ensures(':');
    let joined = module + seq![':'] + function;
    if target_of(value) == Some((module, function)) {
        let at = value.index_of_first(':')->Some_0;
        assert(value =~= joined);
        assert(!module.contains(':')) by {
            if module.contains(':') {
                let i = choose|i: int| 0 <= i < module.len() && module[i] == ':';
                assert(value[i] == module[i]);
            }
        }
    }
    if value == joined && !module.contains(':') {
        let here = module.len() as int;
        assert(value[here] == ':');
        assert(value.contains(':'));
        let at = value.index_of_first(':')->Some_0;
        assert(at == here) by {
            if at < here {
                assert(module[at] == value[at]);
                assert(module.contains(':'));
            }
            if at > here {
                assert(value[here] != ':');
            }
        }
        assert(value.subrange(0, at) =~= module);
        assert(value.subrange(at + 1, value.len() as int) =~= function);
    }
}

/// Splits a console-script value on its first `:`.
pub fn split_target(value: &str) -> (parts: Option<(String, String)>)
    ensures
        match parts {
            Some((module, function)) => target_of(value@) == Some((module@, function@)),
            None => target_of(value@) is None,
        },
{
    proof {
        value@.index_of_first_ensures(':');
    }
    match find_first(value, ':') {
        Some(at) => {
            let len = value.unicode_len();
            let module = String::from_str(value.substring_char(0, at));
            let function = String::from_str(value.substring_char(at + 1, len));
            Some((module, function))
        },
        None => None,
    }
}

/// The console script that `entry` declares: its key is the command, and its
/// value, split on the first `:`, names module and function. None if the
/// entry has no value or the value holds no `:`.
pub fn entry_point(entry: &Entry) -> (found: Option<EntryPoint>)
    ensures
        entry_point_view(found) == entry_point_of(entry@),
{
    match &entry.value {
        Some(value) => match split_target(value.as_str()) {
            Some((module, function)) => Some(
                EntryPoint { command_name: entry.key.clone(), module, function },
            ),
            None => None,
        },
        None => None,
    }
}

impl TableView {
    /// `position` finds the first section of the name, and finds one exactly
    /// when the table has one.
    pub proof fn lemma_position(self, name: Seq<char>, from: int)
        requires
            0 <= from <= self.sections.len(),
        ensures
            from <= self.position(name, from) <= self.sections.len(),
            self.position(name, from) < self.sections.len() ==> self.sections[self.position(
                name,
                from,
            )].name == name,
            forall|i: int|
                from <= i < self.position(name, from) ==> (#[trigger] self.sections[i]).name
                    != name,
        decreases self.sections.len() - from,
    {
        if from < self.sections.len() && self.sections[from].name != name {
            self.lemma_position(name, from + 1);
        }
    }

    /// The table has a section of a name exactly when `position` finds one.
    pub proof fn lemma_has_section(self, name: Seq<char>)
        ensures
            self.has_section(name) <==> self.position(name, 0) < self.sections.len(),
    {
        self.lemma_position(name, 0);
        if self.has_section(name) {
            let i = choose|i: int| 0 <= i < self.sections.len() && self.sections[i].name == name;
            if self.position(name, 0) == self.sections.len() {
                assert(self.sections[i].name != name);
            }
        }
    }
}

impl EntryPointTable {
    /// Takes the entries of the section of that name out of the table; none
    /// if the table has no such section, which is no error.
    pub fn into_entries(self, name: &str) -> (entries: Vec<Entry>)
        ensures
            entries.deep_view() == self@.entries_of(name@),
    {
        let ghost table = self@;
        let mut sections = self.sections;
        let mut at: usize = 0;
        while at < sections.len()
            invariant
                at <= sections.len(),
                table == self@,
                sections.deep_view() == table.sections,
                table.position(name@, 0) == table.position(name@, at as int),
            decreases sections.len() - at,
        {
            assert(sections.deep_view()[at as int] == sections[at as int]@);
            if same_text(sections[at].name.as_str(), name) {
                let section = sections.swap_remove(at);
                assert(section@ == table.sections[at as int]);
                assert(table.position(name@, at as int) == at);
                return section.entries;
            }
            at += 1;
        }
        let entries: Vec<Entry> = Vec::new();
        assert(entries.deep_view() =~= Seq::<EntryView>::empty());
        entries
    }
}

/// The entries of the `console_scripts` section, in the order in which the
/// table holds them; none if the table has no such section.
pub fn console_scripts(table: EntryPointTable) -> (entries: Vec<Entry>)
    ensures
        entries.deep_view() == table@.entries_of(CONSOLE_SCRIPTS@),
{
    table.into_entries(CONSOLE_SCRIPTS)
}

impl TableView {
    /// The entries of a section are what the mapping holds for it: in a
    /// well-formed table, a section that is there is a key of the mapping, its
    /// entries are the keys of the section's mapping, each with its value,
    /// and the section's mapping has no other key.
    pub proof fn lemma_entries_are_the_mapping(self, name: Seq<char>)
        requires
            self.wf(),
            self.has_section(name),
        ensures
            self.as_map().dom().contains(name),
            forall|i: int|
                0 <= i < self.entries_of(name).len() ==> {
                    let entry = #[trigger] self.entries_of(name)[i];
                    self.as_map()[name].dom().contains(entry.key) && self.as_map()[name][entry.key]
                        == entry.value
                },
            forall|key: Seq<char>| #[trigger]
                self.as_map()[name].dom().contains(key) ==> has_key(self.entries_of(name), key),
    {
        self.lemma_has_section(name);
        self.lemma_position(name, 0);
        let entries = self.entries_of(name);
        assert(distinct_keys(entries));
        assert forall|i: int| 0 <= i < entries.len() implies {
            let entry = #[trigger] entries[i];
            entries_map(entries).dom().contains(entry.key) && entries_map(entries)[entry.key]
                == entry.value
        } by {
            let key = entries[i].key;
            assert(has_key(entries, key));
            let j = choose|j: int| 0 <= j < entries.len() && entries[j].key == key;
            assert(j == i) by {
                if j < i {
                    assert(entries[j].key != entries[i].key);
                }
                if i < j {
                    assert(entries[i].key != entries[j].key);
                }
            }
        }
    }
}

} // verus!
