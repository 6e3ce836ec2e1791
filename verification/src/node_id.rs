//! Node identifiers, qualified names and the node-class enumeration.

use vstd::prelude::*;

verus! {

/// Mathematical image of an [`Identifier`].
pub enum IdentifierView {
    Numeric(u32),
    Text(Seq<u8>),
}

/// The identifier part of a `NodeId`: numeric, or a string carried as its
/// UTF-8 bytes.
#[derive(Clone, Debug, PartialEq, Eq)]
pub enum Identifier {
    Numeric(u32),
    Text(Vec<u8>),
}

impl View for Identifier {
    type V = IdentifierView;

    open spec fn view(&self) -> IdentifierView {
        match self {
            Identifier::Numeric(v) => IdentifierView::Numeric(*v),
            Identifier::Text(t) => IdentifierView::Text(t@),
        }
    }
}

impl Identifier {
    /// Whether two identifiers are the same.
    pub fn same(&self, other: &Identifier) -> (r: bool)
        ensures
            r == (self@ == other@),
    {
        match (self, other) {
            (Identifier::Numeric(a), Identifier::Numeric(b)) => *a == *b,
            (Identifier::Text(a), Identifier::Text(b)) => bytes_equal(a, b),
            _ => false,
        }
    }

    /// An identical copy of the identifier.
    pub fn duplicate(&self) -> (r: Identifier)
        ensures
            r@ == self@,
    {
        match self {
            Identifier::Numeric(v) => Identifier::Numeric(*v),
            Identifier::Text(t) => {
                let c = t.clone();
                proof {
                    assert(c@ =~= t@);
                }
                Identifier::Text(c)
            },
        }
    }
}

/// Whether two byte vectors hold the same bytes.
pub fn bytes_equal(a: &Vec<u8>, b: &Vec<u8>) -> (r: bool)
    ensures
        r == (a@ == b@),
{
    if a.len() != b.len() {
        return false;
    }
    let mut i: usize = 0;
    while i < a.len()
        invariant
            i <= a.len(),
            a@.len() == b@.len(),
            forall|j: int| 0 <= j < i ==> a@[j] == b@[j],
        decreases a.len() - i,
    {
        if a[i] != b[i] {
            return false;
        }
        i += 1;
    }
    proof {
        assert(a@ =~= b@);
    }
    true
}

/// Mathematical image of a [`NodeId`].
pub struct NodeIdView {
    pub namespace: u16,
    pub identifier: IdentifierView,
}

/// The canonical identifier of an addressable entity: a namespace index plus
/// an identifier within the namespace.
#[derive(Clone, Debug, PartialEq, Eq)]
pub struct NodeId {
    pub namespace: u16,
    pub identifier: Identifier,
}

impl View for NodeId {
    type V = NodeIdView;

    open spec fn view(&self) -> NodeIdView {
        NodeIdView { namespace: self.namespace, identifier: self.identifier@ }
    }
}

impl NodeIdView {
    /// The null node id: namespace 0, numeric identifier 0.
    pub open spec fn is_null(self) -> bool {
        self.namespace == 0 && self.identifier == IdentifierView::Numeric(0u32)
    }
}

impl NodeId {
    /// A numeric node id.
    pub fn new_numeric(namespace: u16, id: u32) -> (r: NodeId)
        ensures
            r@ == (NodeIdView { namespace, identifier: IdentifierView::Numeric(id) }),
    {
        NodeId { namespace, identifier: Identifier::Numeric(id) }
    }

    /// The null node id.
    pub fn null() -> (r: NodeId)
        ensures
            r@.is_null(),
    {
        NodeId { namespace: 0, identifier: Identifier::Numeric(0) }
    }

    /// Whether this is the null node id.
    pub fn is_null(&self) -> (r: bool)
        ensures
            r == self@.is_null(),
    {
        self.namespace == 0 && match &self.identifier {
            Identifier::Numeric(v) => *v == 0,
            _ => false,
        }
    }

    /// Whether two node ids are the same.
    pub fn same(&self, other: &NodeId) -> (r: bool)
        ensures
            r == (self@ == other@),
    {
        let r = self.namespace == other.namespace && self.identifier.same(&other.identifier);
        proof {
            if self.namespace == other.namespace && self.identifier@ == other.identifier@ {
                assert(self@ =~= other@);
            }
        }
        r
    }

    /// An identical copy of the node id.
    pub fn duplicate(&self) -> (r: NodeId)
        ensures
            r@ == self@,
    {
        NodeId { namespace: self.namespace, identifier: self.identifier.duplicate() }
    }
}

/// Mathematical image of a [`QualifiedName`].
pub struct QualifiedNameView {
    pub namespace: u16,
    pub name: Seq<char>,
}

/// A browse name: a namespace index plus a name.
#[derive(Clone, Debug, PartialEq, Eq)]
pub struct QualifiedName {
    pub namespace: u16,
    pub name: String,
}

impl View for QualifiedName {
    type V = QualifiedNameView;

    open spec fn view(&self) -> QualifiedNameView {
        QualifiedNameView { namespace: self.namespace, name: self.name@ }
    }
}

impl QualifiedName {
    /// A qualified name from its parts.
    pub fn new(namespace: u16, name: String) -> (r: QualifiedName)
        ensures
            r@ == (QualifiedNameView { namespace, name: name@ }),
    {
        QualifiedName { namespace, name }
    }

    /// Whether two qualified names are the same.
    pub fn same(&self, other: &QualifiedName) -> (r: bool)
        ensures
            r == (self@ == other@),
    {
        let r = self.namespace == other.namespace && strings_equal(&self.name, &other.name);
        proof {
            if self.namespace == other.namespace && self.name@ == other.name@ {
                assert(self@ =~= other@);
            }
        }
        r
    }

    /// An identical copy of the qualified name.
    pub fn duplicate(&self) -> (r: QualifiedName)
        ensures
            r@ == self@,
    {
        QualifiedName { namespace: self.namespace, name: clone_string(&self.name) }
    }
}

/// A copy of a string with the same characters.
pub fn clone_string(s: &String) -> (r: String)
    ensures
        r@ == s@,
{
    let r = s.clone();
    proof {
        assert(r@ =~= s@);
    }
    r
}

/// Whether two strings hold the same characters.
pub fn strings_equal(a: &String, b: &String) -> (r: bool)
    ensures
        r == (a@ == b@),
{
    let an = a.as_str();
    let bn = b.as_str();
    let alen = an.unicode_len();
    let blen = bn.unicode_len();
    if alen != blen {
        return false;
    }
    let mut i: usize = 0;
    while i < alen
        invariant
            i <= alen,
            an@ == a@,
            bn@ == b@,
            alen == a@.len(),
            blen == b@.len(),
            a@.len() == b@.len(),
            forall|j: int| 0 <= j < i ==> a@[j] == b@[j],
        decreases alen - i,
    {
        if an.get_char(i) != bn.get_char(i) {
            return false;
        }
        i += 1;
    }
    proof {
        assert(a@ =~= b@);
    }
    true
}

/// A human-readable name with a locale.
#[derive(Clone, Debug, PartialEq, Eq)]
pub struct LocalizedText {
    pub locale: String,
    pub text: String,
}

impl View for LocalizedText {
    type V = Seq<char>;

    open spec fn view(&self) -> Seq<char> {
        self.text@
    }
}

impl LocalizedText {
    /// A localized text with an empty locale.
    pub fn new(text: String) -> (r: LocalizedText)
        ensures
            r@ == text@,
    {
        LocalizedText { locale: String::new(), text }
    }

    /// An identical copy of the text.
    pub fn duplicate(&self) -> (r: LocalizedText)
        ensures
            r@ == self@,
    {
        LocalizedText { locale: clone_string(&self.locale), text: clone_string(&self.text) }
    }
}

/// The class of a node in the address space.
#[derive(Clone, Copy, Debug, PartialEq, Eq, Structural)]
pub enum NodeClass {
    Unspecified,
    Object,
    Variable,
    Method,
    ObjectType,
    VariableType,
    ReferenceType,
    DataType,
    View,
}

impl View for NodeClass {
    type V = NodeClass;

    open spec fn view(&self) -> NodeClass {
        *self
    }
}

impl NodeClass {
    /// Whether the class takes part in the subtype lattice: only the four
    /// type classes do.
    pub open spec fn spec_is_type_class(self) -> bool {
        self == NodeClass::DataType || self == NodeClass::ObjectType
            || self == NodeClass::ReferenceType || self == NodeClass::VariableType
    }

    /// Whether the class takes part in the subtype lattice.
    pub fn is_type_class(self) -> (r: bool)
        ensures
            r == self.spec_is_type_class(),
    {
        match self {
            NodeClass::DataType => true,
            NodeClass::ObjectType => true,
            NodeClass::ReferenceType => true,
            NodeClass::VariableType => true,
            _ => false,
        }
    }
}

} // verus!
