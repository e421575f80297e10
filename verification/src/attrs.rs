//! The metadata extractor: from the annotations on a handler to its
//! attribute set.

use vstd::prelude::*;

verus! {

/// A recognised option of a handler annotation.
#[derive(Clone, Copy, Debug, PartialEq, Eq, Hash, Structural)]
pub enum AttrKey {
    /// The wire name that replaces the declared identifier.
    Name,
    /// The handler is fire-and-forget.
    Notification,
}

/// The value recorded for an option.
#[derive(Clone, Debug, PartialEq, Eq)]
pub enum AttrValue {
    /// A text, as carried by a name override.
    String(String),
    /// The option is a flag and it is there.
    Presence,
}

/// A literal in an annotation: a string with its text, or any other kind.
#[derive(Clone, Debug, PartialEq, Eq)]
pub enum LitValue {
    Str(String),
    Other,
}

/// One meta item of an annotation.
#[derive(Debug, PartialEq, Eq)]
pub enum MetaItem {
    /// A bare word, like `notification`.
    Word(String),
    /// A word followed by a parenthesised list, like `rpc(a, b = "c")`.
    List(String, Vec<NestedItem>),
    /// A word, `=` and a literal, like `name = "x"`.
    NameValue(String, LitValue),
}

/// One element of a meta list.
#[derive(Debug, PartialEq, Eq)]
pub enum NestedItem {
    Meta(MetaItem),
    Literal(LitValue),
}

/// An annotation on a handler: its content as a meta item, where it reads
/// as one.
#[derive(Debug, PartialEq, Eq)]
pub struct Annotation {
    pub meta: Option<MetaItem>,
}

/// One extracted option with its value.
pub type AttrPair = (AttrKey, AttrValue);

/// The word that a meta item starts with.
pub open spec fn meta_name(meta: MetaItem) -> Seq<char> {
    match meta {
        MetaItem::Word(word) => word@,
        MetaItem::List(word, _) => word@,
        MetaItem::NameValue(word, _) => word@,
    }
}

/// The options that one inner meta item stands for: the word
/// `notification` is the flag, `name = "<text>"` is the name override, and
/// everything else stands for nothing.
pub open spec fn meta_pairs(meta: MetaItem) -> Seq<AttrPair> {
    match meta {
        MetaItem::Word(word) => if word@ == "notification"@ {
            seq![(AttrKey::Notification, AttrValue::Presence)]
        } else {
            Seq::empty()
        },
        MetaItem::NameValue(word, LitValue::Str(text)) => if word@ == "name"@ {
            seq![(AttrKey::Name, AttrValue::String(text))]
        } else {
            Seq::empty()
        },
        _ => Seq::empty(),
    }
}

/// The options of one list element: those of a meta item, none of a literal.
pub open spec fn nested_pairs(item: NestedItem) -> Seq<AttrPair> {
    match item {
        NestedItem::Meta(meta) => meta_pairs(meta),
        NestedItem::Literal(_) => Seq::empty(),
    }
}

/// The options of a list's elements, in the order of the elements.
pub open spec fn list_pairs(items: Seq<NestedItem>) -> Seq<AttrPair>
    decreases items.len(),
{
    if items.len() == 0 {
        Seq::empty()
    } else {
        list_pairs(items.drop_last()) + nested_pairs(items.last())
    }
}

/// The options of one annotation: those of the list of an `rpc(..)` item,
/// and none of anything else.
pub open spec fn annotation_pairs(annotation: Annotation) -> Seq<AttrPair> {
    match annotation.meta {
        Some(MetaItem::List(word, items)) => if word@ == "rpc"@ {
            list_pairs(items@)
        } else {
            Seq::empty()
        },
        _ => Seq::empty(),
    }
}

/// The options of all annotations of a handler, in order.
pub open spec fn all_pairs(annotations: Seq<Annotation>) -> Seq<AttrPair>
    decreases annotations.len(),
{
    if annotations.len() == 0 {
        Seq::empty()
    } else {
        all_pairs(annotations.drop_last()) + annotation_pairs(annotations.last())
    }
}

/// Whether two texts are the same.
pub fn same_text(left: &str, right: &str) -> (same: bool)
    ensures
        same == (left@ == right@),
{
    left.to_owned() == right.to_owned()
}

/// Reads one inner meta item of an `rpc(..)` annotation.
pub fn parse_rpc_attr_meta(meta: &MetaItem) -> (pairs: Vec<AttrPair>)
    ensures
        pairs@ == meta_pairs(*meta),
{
    let mut pairs: Vec<AttrPair> = Vec::new();
    match meta {
        MetaItem::Word(word) => {
            if same_text(word.as_str(), "notification") {
                pairs.push((AttrKey::Notification, AttrValue::Presence));
            }
        },
        MetaItem::NameValue(word, LitValue::Str(text)) => {
            if same_text(word.as_str(), "name") {
                pairs.push((AttrKey::Name, AttrValue::String(text.clone())));
            }
        },
        _ => {},
    }
    assert(pairs@ =~= meta_pairs(*meta));
    pairs
}

/// Reads one annotation. One that does not read as a meta item, is not
/// named `rpc` or is not a list gives nothing.
pub fn parse_rpc_attr(attr: &Annotation) -> (pairs: Vec<AttrPair>)
    ensures
        pairs@ == annotation_pairs(*attr),
{
    let mut pairs: Vec<AttrPair> = Vec::new();
    match &attr.meta {
        Some(MetaItem::List(word, items)) => {
            if same_text(word.as_str(), "rpc") {
                let mut i: usize = 0;
                while i < items.len()
                    invariant
                        i <= items.len(),
                        pairs@ == list_pairs(items@.take(i as int)),
                    decreases items.len() - i,
                {
                    let mut more = match &items[i] {
                        NestedItem::Meta(inner) => parse_rpc_attr_meta(inner),
                        NestedItem::Literal(_) => Vec::new(),
                    };
                    proof {
                        assert(items@.take(i + 1).drop_last() =~= items@.take(i as int));
                        assert(more@ =~= nested_pairs(items@[i as int]));
                    }
                    pairs.append(&mut more);
                    i += 1;
                }
                assert(items@.take(i as int) =~= items@);
            }
        },
        _ => {},
    }
    pairs
}

/// Reads all annotations of a handler.
pub fn extract_pairs(annotations: &Vec<Annotation>) -> (pairs: Vec<AttrPair>)
    ensures
        pairs@ == all_pairs(annotations@),
{
    let mut pairs: Vec<AttrPair> = Vec::new();
    let mut i: usize = 0;
    while i < annotations.len()
        invariant
            i <= annotations.len(),
            pairs@ == all_pairs(annotations@.take(i as int)),
        decreases annotations.len() - i,
    {
        let mut more = parse_rpc_attr(&annotations[i]);
        proof {
            assert(annotations@.take(i + 1).drop_last() =~= annotations@.take(i as int));
        }
        pairs.append(&mut more);
        i += 1;
    }
    assert(annotations@.take(i as int) =~= annotations@);
    pairs
}

/// The mapping that a list of options builds: each option in turn is
/// entered under its key, so of two with one key the later one stays.
pub open spec fn pairs_map(pairs: Seq<AttrPair>) -> Map<AttrKey, AttrValue>
    decreases pairs.len(),
{
    if pairs.len() == 0 {
        Map::empty()
    } else {
        pairs_map(pairs.drop_last()).insert(pairs.last().0, pairs.last().1)
    }
}

/// The attribute set of one handler: at most one value for each key. A key
/// that is not there means the default behaviour.
#[derive(Debug, PartialEq, Eq)]
pub struct AttributeSet {
    name: Option<AttrValue>,
    notification: Option<AttrValue>,
}

impl View for AttributeSet {
    type V = Map<AttrKey, AttrValue>;

    closed spec fn view(&self) -> Map<AttrKey, AttrValue> {
        let named: Map<AttrKey, AttrValue> = match self.name {
            Some(value) => Map::empty().insert(AttrKey::Name, value),
            None => Map::empty(),
        };
        match self.notification {
            Some(value) => named.insert(AttrKey::Notification, value),
            None => named,
        }
    }
}

/// A copy of a value.
fn copy_value(value: &AttrValue) -> (copy: AttrValue)
    ensures
        copy == *value,
{
    match value {
        AttrValue::String(text) => AttrValue::String(text.clone()),
        AttrValue::Presence => AttrValue::Presence,
    }
}

impl AttributeSet {
    /// The set without any key.
    pub fn new() -> (set: AttributeSet)
        ensures
            set@ == Map::<AttrKey, AttrValue>::empty(),
    {
        let set = AttributeSet { name: None, notification: None };
        assert(set@ =~= Map::<AttrKey, AttrValue>::empty());
        set
    }

    /// Enters a value under a key, in place of the value that was there.
    pub fn insert(&mut self, key: AttrKey, value: AttrValue)
        ensures
            final(self)@ == old(self)@.insert(key, value),
    {
        match key {
            AttrKey::Name => {
                self.name = Some(value);
            },
            AttrKey::Notification => {
                self.notification = Some(value);
            },
        }
        assert(final(self)@ =~= old(self)@.insert(key, value));
    }

    /// The value under a key, if the key is there.
    pub fn get(&self, key: &AttrKey) -> (value: Option<&AttrValue>)
        ensures
            match value {
                Some(found) => self@.contains_key(*key) && self@[*key] == *found,
                None => !self@.contains_key(*key),
            },
    {
        match key {
            AttrKey::Name => self.name.as_ref(),
            AttrKey::Notification => self.notification.as_ref(),
        }
    }

    /// The set that a list of options builds.
    pub fn from_pairs(pairs: &Vec<AttrPair>) -> (set: AttributeSet)
        ensures
            set@ == pairs_map(pairs@),
    {
        let mut set = AttributeSet::new();
        let mut i: usize = 0;
        while i < pairs.len()
            invariant
                i <= pairs.len(),
                set@ == pairs_map(pairs@.take(i as int)),
            decreases pairs.len() - i,
        {
            proof {
                assert(pairs@.take(i + 1).drop_last() =~= pairs@.take(i as int));
            }
            let value = copy_value(&pairs[i].1);
            set.insert(pairs[i].0, value);
            i += 1;
        }
        assert(pairs@.take(i as int) =~= pairs@);
        set
    }
}

/// The attribute set of a handler with these annotations.
pub open spec fn attributes_of(annotations: Seq<Annotation>) -> Map<AttrKey, AttrValue> {
    pairs_map(all_pairs(annotations))
}

/// Extracts the attribute set of a handler from its annotations.
pub fn extract_attributes(annotations: &Vec<Annotation>) -> (set: AttributeSet)
    ensures
        set@ == attributes_of(annotations@),
{
    let pairs = extract_pairs(annotations);
    AttributeSet::from_pairs(&pairs)
}

/// A handler whose one annotation is `rpc(name = "<text>")` has that text
/// under the name key, and is no notification.
pub proof fn lemma_name_option_is_extracted(annotation: Annotation, text: String)
    requires
        annotation.meta matches Some(MetaItem::List(word, items)) && word@ == "rpc"@
            && items@.len() == 1 && (items@[0] matches NestedItem::Meta(
            MetaItem::NameValue(key, LitValue::Str(value)),
        ) && key@ == "name"@ && value == text),
    ensures
        attributes_of(seq![annotation]) == Map::<AttrKey, AttrValue>::empty().insert(
            AttrKey::Name,
            AttrValue::String(text),
        ),
{
    let items = annotation.meta->Some_0->List_1@;
    assert(items.drop_last() =~= Seq::<NestedItem>::empty());
    assert(list_pairs(items.drop_last()) =~= Seq::<AttrPair>::empty());
    let pair = (AttrKey::Name, AttrValue::String(text));
    assert(list_pairs(items) =~= seq![pair]);
    let annotations = seq![annotation];
    assert(annotations.drop_last() =~= Seq::<Annotation>::empty());
    assert(all_pairs(annotations.drop_last()) =~= Seq::<AttrPair>::empty());
    assert(all_pairs(annotations) =~= seq![pair]);
    assert(seq![pair].drop_last() =~= Seq::<AttrPair>::empty());
    assert(pairs_map(seq![pair].drop_last()) =~= Map::<AttrKey, AttrValue>::empty());
}

} // verus!
