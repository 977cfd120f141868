//! TOML documents as plain trees.
//!
//! The text is parsed by the `toml` crate; everything after that works on
//! [`TomlValue`], a tree of plain values whose model is [`Node`].

use vstd::prelude::*;

verus! {

/// One TOML value. A float or a datetime is kept only as its kind; a table
/// keeps its entries in the order in which the parser hands them out.
#[derive(Debug, PartialEq)]
pub enum TomlValue {
    Text(String),
    Integer(i64),
    Float,
    Boolean(bool),
    Datetime,
    Array(Vec<TomlValue>),
    Table(Vec<(String, TomlValue)>),
}

/// The mathematical model of a [`TomlValue`].
pub enum Node {
    Text(Seq<char>),
    Integer(i64),
    Float,
    Boolean(bool),
    Datetime,
    Array(Seq<Node>),
    Table(Seq<(Seq<char>, Node)>),
}

/// The model of a value: its own content, and that of its items in order.
pub open spec fn node_of(value: TomlValue) -> Node
    decreases value,
{
    match value {
        TomlValue::Text(s) => Node::Text(s@),
        TomlValue::Integer(i) => Node::Integer(i),
        TomlValue::Float => Node::Float,
        TomlValue::Boolean(b) => Node::Boolean(b),
        TomlValue::Datetime => Node::Datetime,
        TomlValue::Array(items) => Node::Array(
            Seq::new(
                items@.len(),
                |i: int|
                    if 0 <= i < items@.len() {
                        node_of(items@[i])
                    } else {
                        Node::Float
                    },
            ),
        ),
        TomlValue::Table(entries) => Node::Table(
            Seq::new(
                entries@.len(),
                |i: int|
                    if 0 <= i < entries@.len() {
                        (entries@[i].0@, node_of(entries@[i].1))
                    } else {
                        (Seq::empty(), Node::Float)
                    },
            ),
        ),
    }
}

impl View for TomlValue {
    type V = Node;

    open spec fn view(&self) -> Node {
        node_of(*self)
    }
}

/// The views of a sequence of strings, one for one.
pub open spec fn texts(strings: Seq<String>) -> Seq<Seq<char>> {
    Seq::new(strings.len(), |i: int| strings[i]@)
}

/// The value of the first entry at or after `start` whose key is `key`.
pub open spec fn entry_from(entries: Seq<(Seq<char>, Node)>, key: Seq<char>, start: int) -> Option<
    Node,
>
    decreases entries.len() - start,
{
    if start < 0 || start >= entries.len() {
        None
    } else if entries[start].0 == key {
        Some(entries[start].1)
    } else {
        entry_from(entries, key, start + 1)
    }
}

impl Node {
    /// The value under `key`, where this node is a table that has the key.
    pub open spec fn entry(self, key: Seq<char>) -> Option<Node> {
        match self {
            Node::Table(entries) => entry_from(entries, key, 0),
            _ => None,
        }
    }

    /// The text of a string value.
    pub open spec fn text(self) -> Option<Seq<char>> {
        match self {
            Node::Text(s) => Some(s),
            _ => None,
        }
    }

    /// The number of an integer value.
    pub open spec fn integer(self) -> Option<i64> {
        match self {
            Node::Integer(i) => Some(i),
            _ => None,
        }
    }

    /// The truth value of a boolean value.
    pub open spec fn boolean(self) -> Option<bool> {
        match self {
            Node::Boolean(b) => Some(b),
            _ => None,
        }
    }

    /// The texts of an array all of whose items are strings.
    pub open spec fn text_list(self) -> Option<Seq<Seq<char>>> {
        match self {
            Node::Array(items) => if forall|i: int| 0 <= i < items.len() ==> (#[trigger] items[i]) is Text {
                Some(Seq::new(items.len(), |i: int| items[i]->Text_0))
            } else {
                None
            },
            _ => None,
        }
    }

    /// The string under `key`: none where the key is absent, the key itself
    /// as the fault where it holds anything but a string.
    pub open spec fn optional_text(self, key: Seq<char>) -> Result<Option<Seq<char>>, Seq<char>> {
        match self.entry(key) {
            None => Ok(None),
            Some(node) => match node.text() {
                Some(text) => Ok(Some(text)),
                None => Err(key),
            },
        }
    }

    /// The integer under `key`, read as [`Node::optional_text`] reads a string.
    pub open spec fn optional_integer(self, key: Seq<char>) -> Result<Option<i64>, Seq<char>> {
        match self.entry(key) {
            None => Ok(None),
            Some(node) => match node.integer() {
                Some(number) => Ok(Some(number)),
                None => Err(key),
            },
        }
    }

    /// The boolean under `key`, read as [`Node::optional_text`] reads a string.
    pub open spec fn optional_boolean(self, key: Seq<char>) -> Result<Option<bool>, Seq<char>> {
        match self.entry(key) {
            None => Ok(None),
            Some(node) => match node.boolean() {
                Some(flag) => Ok(Some(flag)),
                None => Err(key),
            },
        }
    }

    /// The list of strings under `key`, read as [`Node::optional_text`] reads
    /// a string.
    pub open spec fn optional_text_list(self, key: Seq<char>) -> Result<
        Option<Seq<Seq<char>>>,
        Seq<char>,
    > {
        match self.entry(key) {
            None => Ok(None),
            Some(node) => match node.text_list() {
                Some(list) => Ok(Some(list)),
                None => Err(key),
            },
        }
    }

    /// The table under `key`, read as [`Node::optional_text`] reads a string.
    pub open spec fn optional_table(self, key: Seq<char>) -> Result<Option<Node>, Seq<char>> {
        match self.entry(key) {
            None => Ok(None),
            Some(node) => if node is Table {
                Ok(Some(node))
            } else {
                Err(key)
            },
        }
    }
}

impl TomlValue {
    /// Looks `key` up in a table.
    pub fn get(&self, key: &str) -> (r: Option<&TomlValue>)
        ensures
            match self@.entry(key@) {
                Some(node) => r matches Some(v) && v@ == node,
                None => r is None,
            },
    {
        match self {
            TomlValue::Table(entries) => {
                let wanted = key.to_owned();
                let ghost nodes = self@->Table_0;
                let mut i: usize = 0;
                while i < entries.len()
                    invariant
                        i <= entries.len(),
                        wanted@ == key@,
                        self@ == Node::Table(nodes),
                        nodes.len() == entries.len(),
                        forall|j: int|
                            0 <= j < entries.len() ==> #[trigger] nodes[j] == (
                                entries[j].0@,
                                entries[j].1@,
                            ),
                        entry_from(nodes, key@, 0) == entry_from(nodes, key@, i as int),
                    decreases entries.len() - i,
                {
                    if entries[i].0 == wanted {
                        return Some(&entries[i].1);
                    }
                    i += 1;
                }
                None
            },
            _ => None,
        }
    }

    /// The text of a string value.
    pub fn as_text(&self) -> (r: Option<&String>)
        ensures
            match self@.text() {
                Some(s) => r matches Some(t) && t@ == s,
                None => r is None,
            },
    {
        match self {
            TomlValue::Text(s) => Some(s),
            _ => None,
        }
    }

    /// The number of an integer value.
    pub fn as_integer(&self) -> (r: Option<i64>)
        ensures
            r == self@.integer(),
    {
        match self {
            TomlValue::Integer(i) => Some(*i),
            _ => None,
        }
    }

    /// The truth value of a boolean value.
    pub fn as_boolean(&self) -> (r: Option<bool>)
        ensures
            r == self@.boolean(),
    {
        match self {
            TomlValue::Boolean(b) => Some(*b),
            _ => None,
        }
    }

    /// The strings of an array that holds nothing but strings.
    pub fn as_text_list(&self) -> (r: Option<Vec<String>>)
        ensures
            match self@.text_list() {
                Some(list) => r matches Some(v) && texts(v@) == list,
                None => r is None,
            },
    {
        match self {
            TomlValue::Array(items) => {
                let ghost nodes = self@->Array_0;
                let mut out: Vec<String> = Vec::new();
                let mut i: usize = 0;
                while i < items.len()
                    invariant
                        i <= items.len(),
                        self@ == Node::Array(nodes),
                        nodes.len() == items.len(),
                        forall|j: int| 0 <= j < items.len() ==> #[trigger] nodes[j] == items[j]@,
                        out.len() == i,
                        forall|j: int| 0 <= j < i ==> (#[trigger] nodes[j]) is Text,
                        forall|j: int| 0 <= j < i ==> (#[trigger] out[j])@ == nodes[j]->Text_0,
                    decreases items.len() - i,
                {
                    match &items[i] {
                        TomlValue::Text(s) => {
                            out.push(s.clone());
                        },
                        _ => {
                            assert(!(nodes[i as int] is Text));
                            return None;
                        },
                    }
                    i += 1;
                }
                assert(texts(out@) =~= self@.text_list()->Some_0);
                Some(out)
            },
            _ => None,
        }
    }
}

impl TomlValue {
    /// The string under `key`, if the key is there.
    pub fn text_at(&self, key: &str) -> (r: Result<Option<String>, String>)
        ensures
            match self@.optional_text(key@) {
                Ok(Some(text)) => r matches Ok(Some(s)) && s@ == text,
                Ok(None) => r matches Ok(None),
                Err(fault) => r matches Err(k) && k@ == fault,
            },
    {
        match self.get(key) {
            None => Ok(None),
            Some(value) => match value.as_text() {
                Some(text) => Ok(Some(text.clone())),
                None => Err(key.to_owned()),
            },
        }
    }

    /// The integer under `key`, if the key is there.
    pub fn integer_at(&self, key: &str) -> (r: Result<Option<i64>, String>)
        ensures
            match self@.optional_integer(key@) {
                Ok(number) => r == Ok::<Option<i64>, String>(number),
                Err(fault) => r matches Err(k) && k@ == fault,
            },
    {
        match self.get(key) {
            None => Ok(None),
            Some(value) => match value.as_integer() {
                Some(number) => Ok(Some(number)),
                None => Err(key.to_owned()),
            },
        }
    }

    /// The boolean under `key`, if the key is there.
    pub fn boolean_at(&self, key: &str) -> (r: Result<Option<bool>, String>)
        ensures
            match self@.optional_boolean(key@) {
                Ok(flag) => r == Ok::<Option<bool>, String>(flag),
                Err(fault) => r matches Err(k) && k@ == fault,
            },
    {
        match self.get(key) {
            None => Ok(None),
            Some(value) => match value.as_boolean() {
                Some(flag) => Ok(Some(flag)),
                None => Err(key.to_owned()),
            },
        }
    }

    /// The list of strings under `key`, if the key is there.
    pub fn text_list_at(&self, key: &str) -> (r: Result<Option<Vec<String>>, String>)
        ensures
            match self@.optional_text_list(key@) {
                Ok(Some(list)) => r matches Ok(Some(v)) && texts(v@) == list,
                Ok(None) => r matches Ok(None),
                Err(fault) => r matches Err(k) && k@ == fault,
            },
    {
        match self.get(key) {
            None => Ok(None),
            Some(value) => match value.as_text_list() {
                Some(list) => Ok(Some(list)),
                None => Err(key.to_owned()),
            },
        }
    }

    /// The table under `key`, if the key is there.
    pub fn table_at(&self, key: &str) -> (r: Result<Option<&TomlValue>, String>)
        ensures
            match self@.optional_table(key@) {
                Ok(Some(node)) => r matches Ok(Some(table)) && table@ == node,
                Ok(None) => r matches Ok(None),
                Err(fault) => r matches Err(k) && k@ == fault,
            },
    {
        match self.get(key) {
            None => Ok(None),
            Some(value) => match value {
                TomlValue::Table(_) => Ok(Some(value)),
                _ => Err(key.to_owned()),
            },
        }
    }
}

/// The tree that the `toml` crate reads from `text`, or `None` where it
/// rejects the text.
pub uninterp spec fn toml_document(text: Seq<char>) -> Option<Node>;

#[verifier::external_type_specification]
#[verifier::external_body]
pub struct ExTomlValue(toml::Value);

#[verifier::external_type_specification]
#[verifier::external_body]
pub struct ExTomlError(toml::de::Error);

/// `toml::Value`, variant by variant, as a [`TomlValue`]: strings, integers and
/// booleans are copied, arrays and tables are copied item by item in the
/// order of their iterators, and a float or a datetime leaves its kind.
/// Nothing is stated of the result.
#[verifier::external_body]
fn plain(raw: &toml::Value) -> TomlValue {
    match raw {
        toml::Value::String(s) => TomlValue::Text(s.clone()),
        toml::Value::Integer(i) => TomlValue::Integer(*i),
        toml::Value::Float(_) => TomlValue::Float,
        toml::Value::Boolean(b) => TomlValue::Boolean(*b),
        toml::Value::Datetime(_) => TomlValue::Datetime,
        toml::Value::Array(items) => TomlValue::Array(items.iter().map(plain).collect()),
        toml::Value::Table(t) => TomlValue::Table(t.iter().map(|(k, v)| (k.clone(), plain(v))).collect()),
    }
}

/// The most brackets, braces and dots that a text may hold to be parsed.
/// Every level of nesting in a document takes one of them, so the limit
/// bounds the depth to which the parser and every walk of the tree descend.
pub const MAX_STRUCTURE: usize = 512;

/// Whether `c` may open a level of nesting: a bracket, a brace or a dot.
pub open spec fn is_structural(c: char) -> bool {
    c == '[' || c == '{' || c == '.'
}

/// The test [`is_structural`] as a value.
pub open spec fn structural() -> spec_fn(char) -> bool {
    |c: char| is_structural(c)
}

/// How many characters of `text` may open a level of nesting.
pub open spec fn structure(text: Seq<char>) -> nat {
    text.filter(structural()).len()
}

/// A part of a text holds no more structure than the whole.
proof fn lemma_structure_of_prefix(text: Seq<char>, n: int)
    requires
        0 <= n <= text.len(),
    ensures
        structure(text.take(n)) <= structure(text),
{
    assert(text.take(n) + text.skip(n) =~= text);
    Seq::filter_distributes_over_add(text.take(n), text.skip(n), structural());
}

/// Whether `text` is within the limit [`MAX_STRUCTURE`].
pub fn within_limit(text: &str) -> (r: bool)
    ensures
        r == (structure(text@) <= MAX_STRUCTURE),
{
    let mut count: usize = 0;
    proof {
        reveal(Seq::filter);
        assert(text@.take(0) =~= Seq::<char>::empty());
    }
    for c in it: text.chars()
        invariant
            it.seq() == text@,
            count == structure(text@.take(it.index())),
            count <= MAX_STRUCTURE,
    {
        proof {
            let before = text@.take(it.index());
            assert(text@.take(it.index() + 1) =~= before.push(c));
            before.lemma_filter_push(c, structural());
            lemma_structure_of_prefix(text@, it.index() + 1);
        }
        if c == '[' || c == '{' || c == '.' {
            if count >= MAX_STRUCTURE {
                return false;
            }
            count += 1;
        }
    }
    assert(text@.take(text@.len() as int) =~= text@);
    true
}

/// `toml::from_str` at the type `toml::Value`. The contract claims that
/// the call returns for a text within the limit, and that its outcome is a
/// function of the text: an accepted text gives the tree named
/// [`toml_document`], a rejected one gives the crate's error.
#[verifier::external_body]
fn parse_toml(text: &str) -> (r: Result<TomlValue, toml::de::Error>)
    requires
        structure(text@) <= MAX_STRUCTURE,
    ensures
        match r {
            Ok(doc) => toml_document(text@) == Some(doc@),
            Err(_) => toml_document(text@) is None,
        },
{
    toml::from_str::<toml::Value>(text).map(|raw| plain(&raw))
}

/// The message of a `toml::de::Error`, as its `Display` writes it. Nothing
/// is stated of the text.
#[verifier::external_body]
fn error_text(error: &toml::de::Error) -> String {
    error.to_string()
}

/// Why a text is no document.
#[derive(Debug, PartialEq)]
pub enum SyntaxError {
    /// The text is over the limit [`MAX_STRUCTURE`] and was not parsed.
    TooComplex,
    /// The text is not TOML; with the parser's message.
    Invalid(String),
}

/// The model of [`SyntaxError`]; the parser's message is left out.
pub enum SyntaxFault {
    TooComplex,
    Invalid,
}

impl View for SyntaxError {
    type V = SyntaxFault;

    open spec fn view(&self) -> SyntaxFault {
        match self {
            SyntaxError::TooComplex => SyntaxFault::TooComplex,
            SyntaxError::Invalid(_) => SyntaxFault::Invalid,
        }
    }
}

/// What a text is read as: the tree of a TOML text within the limit, and
/// the reason for which any other text is refused.
pub open spec fn parsed(text: Seq<char>) -> Result<Node, SyntaxFault> {
    if structure(text) > MAX_STRUCTURE {
        Err(SyntaxFault::TooComplex)
    } else {
        match toml_document(text) {
            Some(node) => Ok(node),
            None => Err(SyntaxFault::Invalid),
        }
    }
}

/// Parses a TOML text into a tree.
pub fn parse(text: &str) -> (r: Result<TomlValue, SyntaxError>)
    ensures
        match parsed(text@) {
            Ok(node) => r matches Ok(doc) && doc@ == node,
            Err(fault) => r matches Err(e) && e@ == fault,
        },
{
    if !within_limit(text) {
        return Err(SyntaxError::TooComplex);
    }
    match parse_toml(text) {
        Ok(doc) => Ok(doc),
        Err(error) => Err(SyntaxError::Invalid(error_text(&error))),
    }
}

} // verus!
