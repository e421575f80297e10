//! The dispatch table: handler descriptors, the entries built from them,
//! and the table from wire names to entries with its two states.

use crate::attrs::{
    attributes_of, extract_attributes, same_text, Annotation, AttrKey, AttrValue, AttributeSet,
};
use vstd::prelude::*;

verus! {

/// A handler as it is declared: its identifier, its annotations, the
/// descriptions of its parameter types in order, and that of its return
/// type if it names one.
#[derive(Debug, PartialEq, Eq)]
pub struct HandlerDeclaration {
    pub identifier: String,
    pub annotations: Vec<Annotation>,
    pub param_types: Vec<String>,
    pub return_type: Option<String>,
}

/// A handler as the table knows it.
#[derive(Debug, PartialEq, Eq)]
pub struct HandlerDescriptor {
    pub identifier: String,
    pub wire_name: String,
    pub is_notification: bool,
    pub param_types: Vec<String>,
    pub return_type: Option<String>,
}

/// One entry of the table.
#[derive(Debug, PartialEq, Eq)]
pub enum DispatchEntry {
    /// A handler whose caller gets a result.
    MethodEntry(HandlerDescriptor),
    /// A handler whose caller gets nothing.
    NotificationEntry(HandlerDescriptor),
}

/// The wire name of a handler: the text under the name key, where there is
/// one, else the declared identifier.
pub open spec fn wire_name_of(identifier: String, attrs: Map<AttrKey, AttrValue>) -> String {
    if attrs.contains_key(AttrKey::Name) {
        match attrs[AttrKey::Name] {
            AttrValue::String(text) => text,
            AttrValue::Presence => identifier,
        }
    } else {
        identifier
    }
}

/// Whether the attribute set marks a notification.
pub open spec fn notification_in(attrs: Map<AttrKey, AttrValue>) -> bool {
    attrs.contains_key(AttrKey::Notification) && attrs[AttrKey::Notification] is Presence
}

/// The descriptor of a declared handler. A notification has no return type.
pub open spec fn descriptor_of(declaration: HandlerDeclaration) -> HandlerDescriptor {
    let attrs = attributes_of(declaration.annotations@);
    HandlerDescriptor {
        identifier: declaration.identifier,
        wire_name: wire_name_of(declaration.identifier, attrs),
        is_notification: notification_in(attrs),
        param_types: declaration.param_types,
        return_type: if notification_in(attrs) {
            None
        } else {
            declaration.return_type
        },
    }
}

/// The entry that stands for a descriptor.
pub open spec fn entry_of(descriptor: HandlerDescriptor) -> DispatchEntry {
    if descriptor.is_notification {
        DispatchEntry::NotificationEntry(descriptor)
    } else {
        DispatchEntry::MethodEntry(descriptor)
    }
}

/// The mapping that registering the entries in order gives: each is entered
/// under its wire name, in place of an earlier one of that name.
pub open spec fn table_of(entries: Seq<DispatchEntry>) -> Map<Seq<char>, DispatchEntry>
    decreases entries.len(),
{
    if entries.len() == 0 {
        Map::empty()
    } else {
        table_of(entries.drop_last()).insert(entries.last().descriptor().wire_name@, entries.last())
    }
}

/// The entries of the declared handlers, in order.
pub open spec fn entries_of(declarations: Seq<HandlerDeclaration>) -> Seq<DispatchEntry> {
    declarations.map_values(|declaration: HandlerDeclaration| entry_of(descriptor_of(declaration)))
}

/// A copy of a text.
fn copy_text(text: &String) -> (copy: String)
    ensures
        copy == *text,
{
    text.clone()
}

/// Resolves the wire name of a handler.
pub fn resolve_wire_name(identifier: &String, attrs: &AttributeSet) -> (name: String)
    ensures
        name == wire_name_of(*identifier, attrs@),
{
    match attrs.get(&AttrKey::Name) {
        Some(AttrValue::String(text)) => copy_text(text),
        _ => copy_text(identifier),
    }
}

/// Tells whether the attribute set marks a notification.
pub fn is_notification(attrs: &AttributeSet) -> (flag: bool)
    ensures
        flag == notification_in(attrs@),
{
    match attrs.get(&AttrKey::Notification) {
        Some(AttrValue::Presence) => true,
        _ => false,
    }
}

/// Builds the descriptor of a declared handler.
pub fn describe_handler(declaration: HandlerDeclaration) -> (descriptor: HandlerDescriptor)
    ensures
        descriptor == descriptor_of(declaration),
{
    let attrs = extract_attributes(&declaration.annotations);
    let notification = is_notification(&attrs);
    let wire_name = resolve_wire_name(&declaration.identifier, &attrs);
    HandlerDescriptor {
        identifier: declaration.identifier,
        wire_name,
        is_notification: notification,
        param_types: declaration.param_types,
        return_type: if notification {
            None
        } else {
            declaration.return_type
        },
    }
}

/// The way a handler's arguments are taken from the decoded value.
#[derive(Clone, Copy, Debug, PartialEq, Eq, Structural)]
pub enum BindingShape {
    /// The handler declares no parameter: nothing is decoded.
    NoArguments,
    /// One parameter: the decoded value is the argument.
    Single,
    /// This many parameters, two or more: the decoded value is a sequence
    /// and the arguments are its items, in the order of declaration.
    Tuple(usize),
}

/// The binding shape of a handler with `arity` parameters.
pub open spec fn shape_of(arity: nat) -> BindingShape {
    if arity == 0 {
        BindingShape::NoArguments
    } else if arity == 1 {
        BindingShape::Single
    } else {
        BindingShape::Tuple(arity as usize)
    }
}

impl HandlerDescriptor {
    /// The number of declared parameters.
    pub open spec fn arity(&self) -> nat {
        self.param_types@.len()
    }

    /// The binding shape of the handler.
    pub fn binding_shape(&self) -> (shape: BindingShape)
        ensures
            shape == shape_of(self.arity()),
    {
        let arity = self.param_types.len();
        if arity == 0 {
            BindingShape::NoArguments
        } else if arity == 1 {
            BindingShape::Single
        } else {
            BindingShape::Tuple(arity)
        }
    }

    /// The word for the handler's kind in log lines.
    pub fn kind_text(&self) -> (text: &'static str)
        ensures
            text@ == if self.is_notification {
                "notification"@
            } else {
                "method"@
            },
    {
        if self.is_notification {
            "notification"
        } else {
            "method"
        }
    }
}

impl DispatchEntry {
    /// The descriptor that the entry was built from.
    pub open spec fn descriptor(&self) -> HandlerDescriptor {
        match *self {
            DispatchEntry::MethodEntry(descriptor) => descriptor,
            DispatchEntry::NotificationEntry(descriptor) => descriptor,
        }
    }

    /// Builds the entry of a descriptor: a notification entry where the
    /// descriptor is marked so, else a method entry.
    pub fn new(descriptor: HandlerDescriptor) -> (entry: DispatchEntry)
        ensures
            entry == entry_of(descriptor),
    {
        if descriptor.is_notification {
            DispatchEntry::NotificationEntry(descriptor)
        } else {
            DispatchEntry::MethodEntry(descriptor)
        }
    }

    /// The descriptor of the entry.
    pub fn handler(&self) -> (descriptor: &HandlerDescriptor)
        ensures
            *descriptor == self.descriptor(),
    {
        match self {
            DispatchEntry::MethodEntry(descriptor) => descriptor,
            DispatchEntry::NotificationEntry(descriptor) => descriptor,
        }
    }
}

/// Where the last entry of a name stands, that entry is what the table holds
/// under the name.
pub proof fn lemma_last_of_name_stays(entries: Seq<DispatchEntry>, i: int)
    requires
        0 <= i < entries.len(),
        forall|j: int|
            i < j < entries.len() ==> entries[j].descriptor().wire_name@
                != entries[i].descriptor().wire_name@,
    ensures
        table_of(entries).contains_key(entries[i].descriptor().wire_name@),
        table_of(entries)[entries[i].descriptor().wire_name@] == entries[i],
    decreases entries.len(),
{
    if i < entries.len() - 1 {
        let front = entries.drop_last();
        assert(front[i] == entries[i]);
        assert forall|j: int| i < j < front.len() implies front[j].descriptor().wire_name@
            != front[i].descriptor().wire_name@ by {
            assert(front[j] == entries[j]);
        }
        lemma_last_of_name_stays(front, i);
    }
}

/// A name that no entry has is not in the table.
pub proof fn lemma_unused_name_absent(entries: Seq<DispatchEntry>, name: Seq<char>)
    requires
        forall|j: int| 0 <= j < entries.len() ==> entries[j].descriptor().wire_name@ != name,
    ensures
        !table_of(entries).contains_key(name),
    decreases entries.len(),
{
    if entries.len() > 0 {
        let front = entries.drop_last();
        assert forall|j: int| 0 <= j < front.len() implies front[j].descriptor().wire_name@
            != name by {
            assert(front[j] == entries[j]);
        }
        lemma_unused_name_absent(front, name);
    }
}

/// The table while it is built: entries are registered, none is looked up.
#[derive(Debug)]
pub struct TableBuilder {
    entries: Vec<DispatchEntry>,
}

/// The built table: entries are looked up, none is registered.
#[derive(Debug)]
pub struct DispatchTable {
    entries: Vec<DispatchEntry>,
}

impl View for TableBuilder {
    type V = Map<Seq<char>, DispatchEntry>;

    closed spec fn view(&self) -> Map<Seq<char>, DispatchEntry> {
        table_of(self.entries@)
    }
}

impl View for DispatchTable {
    type V = Map<Seq<char>, DispatchEntry>;

    closed spec fn view(&self) -> Map<Seq<char>, DispatchEntry> {
        table_of(self.entries@)
    }
}

impl TableBuilder {
    /// A builder without entries.
    pub fn new() -> (builder: TableBuilder)
        ensures
            builder@ == Map::<Seq<char>, DispatchEntry>::empty(),
    {
        TableBuilder { entries: Vec::new() }
    }

    /// Registers an entry under its wire name. An entry that was registered
    /// under that name before is replaced.
    pub fn register(&mut self, entry: DispatchEntry)
        ensures
            final(self)@ == old(self)@.insert(entry.descriptor().wire_name@, entry),
    {
        self.entries.push(entry);
        assert(self.entries@.drop_last() =~= old(self).entries@);
    }

    /// Registers the entry of a declared handler.
    pub fn register_handler(&mut self, declaration: HandlerDeclaration)
        ensures
            final(self)@ == old(self)@.insert(
                descriptor_of(declaration).wire_name@,
                entry_of(descriptor_of(declaration)),
            ),
    {
        let entry = DispatchEntry::new(describe_handler(declaration));
        self.register(entry);
    }

    /// Ends the building: the table that holds what was registered.
    pub fn freeze(self) -> (table: DispatchTable)
        ensures
            table@ == self@,
    {
        DispatchTable { entries: self.entries }
    }
}

impl DispatchTable {
    /// The entry under a wire name, if the table has one.
    pub fn lookup(&self, wire_name: &str) -> (found: Option<&DispatchEntry>)
        ensures
            match found {
                Some(entry) => self@.contains_key(wire_name@) && self@[wire_name@] == *entry,
                None => !self@.contains_key(wire_name@),
            },
    {
        let mut i: usize = self.entries.len();
        while i > 0
            invariant
                i <= self.entries.len(),
                forall|j: int|
                    i <= j < self.entries.len() ==> self.entries@[j].descriptor().wire_name@
                        != wire_name@,
            decreases i,
        {
            i -= 1;
            let entry = &self.entries[i];
            if same_text(entry.handler().wire_name.as_str(), wire_name) {
                proof {
                    lemma_last_of_name_stays(self.entries@, i as int);
                }
                return Some(entry);
            }
        }
        proof {
            lemma_unused_name_absent(self.entries@, wire_name@);
        }
        None
    }
}

/// The table of a service with these handlers, in the order of their
/// declaration.
pub open spec fn built_table(declarations: Seq<HandlerDeclaration>) -> Map<Seq<char>, DispatchEntry> {
    table_of(entries_of(declarations))
}

/// Builds the table of a service from the declarations of its handlers.
pub fn build_table(declarations: Vec<HandlerDeclaration>) -> (table: DispatchTable)
    ensures
        table@ == built_table(declarations@),
{
    let mut builder = TableBuilder::new();
    let ghost all = declarations@;
    for declaration in iter: declarations
        invariant
            iter.seq() == all,
            builder@ == built_table(all.take(iter.index() as int)),
    {
        proof {
            let i = iter.index() as int;
            let now = all.take(i + 1);
            assert(entries_of(now).drop_last() =~= entries_of(all.take(i)));
            assert(entries_of(now).last() == entry_of(descriptor_of(all[i])));
        }
        builder.register_handler(declaration);
    }
    assert(all.take(all.len() as int) =~= all);
    builder.freeze()
}

/// Every registered entry is reachable: the table has an entry under the
/// wire name of each.
pub proof fn lemma_every_entry_reachable(entries: Seq<DispatchEntry>, i: int)
    requires
        0 <= i < entries.len(),
    ensures
        table_of(entries).contains_key(entries[i].descriptor().wire_name@),
    decreases entries.len(),
{
    if i < entries.len() - 1 {
        lemma_every_entry_reachable(entries.drop_last(), i);
    }
}

/// Every declared handler, whatever the number of its parameters, is
/// reachable in the built table under its resolved wire name.
pub proof fn lemma_every_handler_reachable(declarations: Seq<HandlerDeclaration>, i: int)
    requires
        0 <= i < declarations.len(),
    ensures
        built_table(declarations).contains_key(descriptor_of(declarations[i]).wire_name@),
{
    lemma_every_entry_reachable(entries_of(declarations), i);
}

/// Of the handlers that resolve to one wire name, the one declared last is
/// the one that the built table holds under that name.
pub proof fn lemma_later_registration_wins(declarations: Seq<HandlerDeclaration>, i: int)
    requires
        0 <= i < declarations.len(),
        forall|j: int|
            i < j < declarations.len() ==> descriptor_of(declarations[j]).wire_name@
                != descriptor_of(declarations[i]).wire_name@,
    ensures
        built_table(declarations).contains_key(descriptor_of(declarations[i]).wire_name@),
        built_table(declarations)[descriptor_of(declarations[i]).wire_name@] == entry_of(
            descriptor_of(declarations[i]),
        ),
{
    lemma_last_of_name_stays(entries_of(declarations), i);
}

/// A name override takes precedence: a handler whose attribute set holds a
/// text under the name key is reachable under that text and under nothing
/// else, its declared identifier included.
pub proof fn lemma_name_override_takes_precedence(declaration: HandlerDeclaration, text: String)
    requires
        attributes_of(declaration.annotations@).contains_key(AttrKey::Name),
        attributes_of(declaration.annotations@)[AttrKey::Name] == AttrValue::String(text),
    ensures
        descriptor_of(declaration).wire_name == text,
        forall|name: Seq<char>|
            built_table(seq![declaration]).contains_key(name) <==> name == text@,
{
    let entries = entries_of(seq![declaration]);
    assert(entries.drop_last() =~= Seq::<DispatchEntry>::empty());
    assert(table_of(entries.drop_last()) =~= Map::<Seq<char>, DispatchEntry>::empty());
}

} // verus!
