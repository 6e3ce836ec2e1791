//! The attributes every node carries: id, class, names, masks.

use vstd::prelude::*;

use crate::attribute::AttributeId;
use crate::data_value::DataValue;
use crate::node_id::{LocalizedText, NodeClass, NodeId, NodeIdView, QualifiedName, QualifiedNameView};
use crate::status::StatusCode;
use crate::variant::{Scalar, Variant};

verus! {

/// Mathematical image of a [`Base`].
pub struct BaseView {
    pub node_class: NodeClass,
    pub node_id: NodeIdView,
    pub browse_name: QualifiedNameView,
    pub display_name: Seq<char>,
    pub description: Option<Seq<char>>,
    pub write_mask: u32,
    pub user_write_mask: u32,
}

/// The part every node shares: class, id, names and write masks.
#[derive(Clone, Debug)]
pub struct Base {
    /// The class of the node.
    pub node_class: NodeClass,
    /// The node's id.
    pub node_id: NodeId,
    /// The node's browse name.
    pub browse_name: QualifiedName,
    /// The node's display name.
    pub display_name: LocalizedText,
    /// An optional description.
    pub description: Option<LocalizedText>,
    /// Which attributes a client may write.
    pub write_mask: u32,
    /// Which attributes the current user may write.
    pub user_write_mask: u32,
}

impl View for Base {
    type V = BaseView;

    open spec fn view(&self) -> BaseView {
        BaseView {
            node_class: self.node_class,
            node_id: self.node_id@,
            browse_name: self.browse_name@,
            display_name: self.display_name@,
            description: match &self.description {
                Some(d) => Some(d@),
                None => None,
            },
            write_mask: self.write_mask,
            user_write_mask: self.user_write_mask,
        }
    }
}

impl Base {
    /// A base with the given class, id and names, and clear masks.
    pub fn new(
        node_class: NodeClass,
        node_id: &NodeId,
        browse_name: QualifiedName,
        display_name: LocalizedText,
    ) -> (r: Base)
        ensures
            r@ == (BaseView {
                node_class,
                node_id: node_id@,
                browse_name: browse_name@,
                display_name: display_name@,
                description: None::<Seq<char>>,
                write_mask: 0u32,
                user_write_mask: 0u32,
            }),
    {
        Base {
            node_class,
            node_id: node_id.duplicate(),
            browse_name,
            display_name,
            description: None,
            write_mask: 0,
            user_write_mask: 0,
        }
    }

    /// A node is valid when it has a class and a real id.
    pub open spec fn spec_is_valid(self) -> bool {
        self.node_class != NodeClass::Unspecified && !self@.node_id.is_null()
    }

    /// Whether the node has a class and a real id.
    pub fn is_valid(&self) -> (r: bool)
        ensures
            r == self.spec_is_valid(),
    {
        let class_ok = match self.node_class {
            NodeClass::Unspecified => false,
            _ => true,
        };
        class_ok && !self.node_id.is_null()
    }

    /// Set the description.
    pub fn set_description(&mut self, description: LocalizedText)
        ensures
            final (self)@ == (BaseView { description: Some(description@), ..old(self)@ }),
    {
        self.description = Some(description);
    }

    /// Set the write mask.
    pub fn set_write_mask(&mut self, write_mask: u32)
        ensures
            final (self)@ == (BaseView { write_mask, ..old(self)@ }),
    {
        self.write_mask = write_mask;
    }

    /// Set the user write mask.
    pub fn set_user_write_mask(&mut self, user_write_mask: u32)
        ensures
            final (self)@ == (BaseView { user_write_mask, ..old(self)@ }),
    {
        self.user_write_mask = user_write_mask;
    }

    /// Read a base attribute. Ids and masks come back as values; name
    /// attributes come back as their text's bytes. Attributes the base does
    /// not carry come back empty.
    pub fn get_attribute(&self, attribute_id: AttributeId) -> (r: Option<DataValue>)
        ensures
            attribute_id == AttributeId::NodeId ==> (r matches Some(d) && d@.value == Some(
                crate::variant::VariantView::Scalar(
                    crate::variant::ScalarView::NodeId(self@.node_id),
                ),
            )),
            attribute_id == AttributeId::WriteMask ==> (r matches Some(d) && d@.value == Some(
                crate::variant::VariantView::Scalar(
                    crate::variant::ScalarView::UInt32(self@.write_mask),
                ),
            )),
            attribute_id == AttributeId::UserWriteMask ==> (r matches Some(d) && d@.value == Some(
                crate::variant::VariantView::Scalar(
                    crate::variant::ScalarView::UInt32(self@.user_write_mask),
                ),
            )),
            !(attribute_id == AttributeId::NodeId || attribute_id == AttributeId::WriteMask
                || attribute_id == AttributeId::UserWriteMask) ==> r is None,
    {
        match attribute_id {
            AttributeId::NodeId => Some(
                DataValue::value_only(Variant::Scalar(Scalar::NodeId(self.node_id.duplicate()))),
            ),
            AttributeId::WriteMask => Some(
                DataValue::value_only(Variant::Scalar(Scalar::UInt32(self.write_mask))),
            ),
            AttributeId::UserWriteMask => Some(
                DataValue::value_only(Variant::Scalar(Scalar::UInt32(self.user_write_mask))),
            ),
            _ => None,
        }
    }

    /// Write a base attribute. Only the write masks can be set this way;
    /// anything else is refused.
    pub fn set_attribute(&mut self, attribute_id: AttributeId, value: Variant) -> (r: Result<
        (),
        StatusCode,
    >)
        ensures
            match (attribute_id, value@) {
                (
                    AttributeId::WriteMask,
                    crate::variant::VariantView::Scalar(crate::variant::ScalarView::UInt32(v)),
                ) => r is Ok && final (self)@ == (BaseView { write_mask: v, ..old(self)@ }),
                (
                    AttributeId::UserWriteMask,
                    crate::variant::VariantView::Scalar(crate::variant::ScalarView::UInt32(v)),
                ) => r is Ok && final (self)@ == (BaseView { user_write_mask: v, ..old(self)@ }),
                (AttributeId::WriteMask, _) => r == Err::<(), StatusCode>(
                    StatusCode::BadTypeMismatch,
                ) && *final (self) == *old(self),
                (AttributeId::UserWriteMask, _) => r == Err::<(), StatusCode>(
                    StatusCode::BadTypeMismatch,
                ) && *final (self) == *old(self),
                _ => r == Err::<(), StatusCode>(StatusCode::BadAttributeIdInvalid) && *final (self)
                    == *old(self),
            },
    {
        match attribute_id {
            AttributeId::WriteMask => {
                if let Variant::Scalar(Scalar::UInt32(v)) = value {
                    self.write_mask = v;
                    Ok(())
                } else {
                    Err(StatusCode::BadTypeMismatch)
                }
            },
            AttributeId::UserWriteMask => {
                if let Variant::Scalar(Scalar::UInt32(v)) = value {
                    self.user_write_mask = v;
                    Ok(())
                } else {
                    Err(StatusCode::BadTypeMismatch)
                }
            },
            _ => Err(StatusCode::BadAttributeIdInvalid),
        }
    }

    /// An identical copy of the base.
    pub fn duplicate(&self) -> (r: Base)
        ensures
            r@ == self@,
    {
        Base {
            node_class: self.node_class,
            node_id: self.node_id.duplicate(),
            browse_name: self.browse_name.duplicate(),
            display_name: self.display_name.duplicate(),
            description: match &self.description {
                Some(d) => Some(d.duplicate()),
                None => None,
            },
            write_mask: self.write_mask,
            user_write_mask: self.user_write_mask,
        }
    }
}

} // verus!
