//! Object types in the address space, and their builder.

use vstd::prelude::*;

use crate::attribute::{
    mask_contains,
    mask_valid,
    AttributeId,
    FromAttributesError,
    MASK_DESCRIPTION,
    MASK_DISPLAY_NAME,
    MASK_IS_ABSTRACT,
    MASK_USER_WRITE_MASK,
    MASK_WRITE_MASK,
    spec_mask_contains,
    spec_mask_valid,
};
use crate::base::{Base, BaseView};
use crate::data_value::DataValue;
use crate::node_id::{LocalizedText, NodeClass, NodeId, QualifiedName};
use crate::status::StatusCode;
use crate::variant::{Scalar, ScalarView, Variant, VariantView};

verus! {

/// Mathematical image of an [`ObjectType`].
pub struct ObjectTypeView {
    pub base: BaseView,
    pub is_abstract: bool,
}

/// An object type node: a base plus the abstract flag.
#[derive(Clone, Debug)]
pub struct ObjectType {
    /// The attributes every node carries.
    pub base: Base,
    /// Whether the type may not be instantiated.
    pub is_abstract: bool,
}

impl View for ObjectType {
    type V = ObjectTypeView;

    open spec fn view(&self) -> ObjectTypeView {
        ObjectTypeView { base: self.base@, is_abstract: self.is_abstract }
    }
}

/// The attribute record an object type can be built from.
#[derive(Clone, Debug)]
pub struct ObjectTypeAttributes {
    pub specified_attributes: u32,
    pub display_name: LocalizedText,
    pub description: LocalizedText,
    pub write_mask: u32,
    pub user_write_mask: u32,
    pub is_abstract: bool,
}

impl ObjectType {
    /// A new object type.
    pub fn new(
        node_id: &NodeId,
        browse_name: QualifiedName,
        display_name: LocalizedText,
        is_abstract: bool,
    ) -> (r: ObjectType)
        ensures
            r@.base.node_class == NodeClass::ObjectType,
            r@.base.node_id == node_id@,
            r@.base.browse_name == browse_name@,
            r@.base.display_name == display_name@,
            r@.base.description is None,
            r@.base.write_mask == 0,
            r@.base.user_write_mask == 0,
            r@.is_abstract == is_abstract,
    {
        ObjectType {
            base: Base::new(NodeClass::ObjectType, node_id, browse_name, display_name),
            is_abstract,
        }
    }

    /// A new object type from all its attributes.
    pub fn new_full(base: Base, is_abstract: bool) -> (r: ObjectType)
        ensures
            r@ == (ObjectTypeView { base: base@, is_abstract }),
    {
        ObjectType { base, is_abstract }
    }

    /// Build an object type from an attribute record. The mask must carry
    /// only defined bits and must specify the display name and the abstract
    /// flag; the optional attributes are taken when specified.
    pub fn from_attributes(
        node_id: &NodeId,
        browse_name: QualifiedName,
        attributes: ObjectTypeAttributes,
    ) -> (r: Result<ObjectType, FromAttributesError>)
        ensures
            !spec_mask_valid(attributes.specified_attributes) ==> r == Err::<
                ObjectType,
                FromAttributesError,
            >(FromAttributesError::InvalidMask),
            spec_mask_valid(attributes.specified_attributes) && !spec_mask_contains(
                attributes.specified_attributes,
                MASK_DISPLAY_NAME | MASK_IS_ABSTRACT,
            ) ==> r == Err::<ObjectType, FromAttributesError>(
                FromAttributesError::MissingMandatoryValues,
            ),
            spec_mask_valid(attributes.specified_attributes) && spec_mask_contains(
                attributes.specified_attributes,
                MASK_DISPLAY_NAME | MASK_IS_ABSTRACT,
            ) ==> (r matches Ok(n) && n@.base.node_id == node_id@ && n@.base.browse_name
                == browse_name@ && n@.base.display_name == attributes.display_name@
                && n@.is_abstract == attributes.is_abstract && n@.base.node_class
                == NodeClass::ObjectType && n@.base.description == (if spec_mask_contains(
                attributes.specified_attributes,
                MASK_DESCRIPTION,
            ) {
                Some(attributes.description@)
            } else {
                None
            }) && n@.base.write_mask == (if spec_mask_contains(
                attributes.specified_attributes,
                MASK_WRITE_MASK,
            ) {
                attributes.write_mask
            } else {
                0u32
            }) && n@.base.user_write_mask == (if spec_mask_contains(
                attributes.specified_attributes,
                MASK_USER_WRITE_MASK,
            ) {
                attributes.user_write_mask
            } else {
                0u32
            })),
    {
        if !mask_valid(attributes.specified_attributes) {
            return Err(FromAttributesError::InvalidMask);
        }
        if !mask_contains(attributes.specified_attributes, MASK_DISPLAY_NAME | MASK_IS_ABSTRACT) {
            return Err(FromAttributesError::MissingMandatoryValues);
        }
        let mut node = Self::new(
            node_id,
            browse_name,
            attributes.display_name,
            attributes.is_abstract,
        );
        if mask_contains(attributes.specified_attributes, MASK_DESCRIPTION) {
            node.base.set_description(attributes.description);
        }
        if mask_contains(attributes.specified_attributes, MASK_WRITE_MASK) {
            node.base.set_write_mask(attributes.write_mask);
        }
        if mask_contains(attributes.specified_attributes, MASK_USER_WRITE_MASK) {
            node.base.set_user_write_mask(attributes.user_write_mask);
        }
        Ok(node)
    }

    /// Whether this is a valid object type node.
    pub fn is_valid(&self) -> (r: bool)
        ensures
            r == self.base.spec_is_valid(),
    {
        self.base.is_valid()
    }

    /// The `IsAbstract` attribute.
    pub fn is_abstract(&self) -> (r: bool)
        ensures
            r == self@.is_abstract,
    {
        self.is_abstract
    }

    /// Set the `IsAbstract` attribute.
    pub fn set_is_abstract(&mut self, is_abstract: bool)
        ensures
            final (self)@ == (ObjectTypeView { is_abstract, ..old(self)@ }),
    {
        self.is_abstract = is_abstract;
    }

    /// Read an attribute: the abstract flag, or whatever the base carries.
    pub fn get_attribute_max_age(&self, attribute_id: AttributeId) -> (r: Option<DataValue>)
        ensures
            attribute_id == AttributeId::IsAbstract ==> (r matches Some(d) && d@.value == Some(
                VariantView::Scalar(ScalarView::Boolean(self@.is_abstract)),
            )),
    {
        match attribute_id {
            AttributeId::IsAbstract => Some(
                DataValue::value_only(Variant::Scalar(Scalar::Boolean(self.is_abstract))),
            ),
            _ => self.base.get_attribute(attribute_id),
        }
    }

    /// Write an attribute: the abstract flag takes a boolean; the rest is the
    /// base's business.
    pub fn set_attribute(&mut self, attribute_id: AttributeId, value: Variant) -> (r: Result<
        (),
        StatusCode,
    >)
        ensures
            attribute_id == AttributeId::IsAbstract ==> match value@ {
                VariantView::Scalar(ScalarView::Boolean(v)) => r is Ok && final (self)@
                    == (ObjectTypeView { is_abstract: v, ..old(self)@ }),
                _ => r == Err::<(), StatusCode>(StatusCode::BadTypeMismatch) && *final (self)
                    == *old(self),
            },
    {
        match attribute_id {
            AttributeId::IsAbstract => {
                if let Variant::Scalar(Scalar::Boolean(v)) = value {
                    self.is_abstract = v;
                    Ok(())
                } else {
                    Err(StatusCode::BadTypeMismatch)
                }
            },
            _ => self.base.set_attribute(attribute_id, value),
        }
    }
}

impl Default for ObjectType {
    /// An empty, invalid object type.
    fn default() -> (r: ObjectType)
        ensures
            r@.base.node_id.is_null(),
            !r@.is_abstract,
            r@.base.node_class == NodeClass::ObjectType,
    {
        ObjectType {
            base: Base::new(
                NodeClass::ObjectType,
                &NodeId::null(),
                QualifiedName::new(0, String::new()),
                LocalizedText::new(String::new()),
            ),
            is_abstract: false,
        }
    }
}

/// A builder for object type nodes.
#[derive(Debug)]
pub struct ObjectTypeBuilder {
    /// The node under construction.
    pub node: ObjectType,
}

impl ObjectTypeBuilder {
    /// Start building an object type.
    pub fn new(node_id: &NodeId, browse_name: QualifiedName, display_name: LocalizedText) -> (r:
        ObjectTypeBuilder)
        ensures
            r.node@.base.node_id == node_id@,
            r.node@.base.browse_name == browse_name@,
            r.node@.base.display_name == display_name@,
            !r.node@.is_abstract,
    {
        ObjectTypeBuilder { node: ObjectType::new(node_id, browse_name, display_name, false) }
    }

    /// Set whether the type is abstract, meaning it cannot be used by nodes
    /// in the instance hierarchy.
    pub fn is_abstract(self, is_abstract: bool) -> (r: ObjectTypeBuilder)
        ensures
            r.node@ == (ObjectTypeView { is_abstract, ..self.node@ }),
    {
        let mut b = self;
        b.node.set_is_abstract(is_abstract);
        b
    }

    /// Set the type's write mask.
    pub fn write_mask(self, write_mask: u32) -> (r: ObjectTypeBuilder)
        ensures
            r.node@ == (ObjectTypeView {
                base: BaseView { write_mask, ..self.node@.base },
                ..self.node@
            }),
    {
        let mut b = self;
        b.node.base.set_write_mask(write_mask);
        b
    }

    /// Finish: the node must be valid.
    pub fn build(self) -> (r: ObjectType)
        requires
            self.node.base.spec_is_valid(),
        ensures
            r == self.node,
    {
        self.node
    }
}

} // verus!
