use vstd::prelude::*;
use crate::elements::line::Line;
use crate::elements::rectangle::Rectangle;
use crate::envelope::Envelope;

verus! {

/// One drawable shape, of any of the kinds that a page can hold.
#[derive(Debug)]
pub enum Shape {
    Line(Line),
    Rectangle(Rectangle),
}

/// A shared handle on a shape of a kind that is not known statically. It can
/// be turned back into a handle on the concrete shape with `downcast_ref`.
#[derive(Debug, Clone, Copy)]
pub enum ElementRef<'a> {
    Line(&'a Line),
    Rectangle(&'a Rectangle),
}

/// An exclusive handle on a shape of a kind that is not known statically. It
/// can be turned back into a handle on the concrete shape with
/// `downcast_mut`.
#[derive(Debug)]
pub enum ElementMut<'a> {
    Line(&'a mut Line),
    Rectangle(&'a mut Rectangle),
}

/// What every drawable shape offers: a bounding envelope, and a way into the
/// closed set of shapes and back out of it.
pub trait Element: Sized {
    /// This element as a member of the closed set of shapes.
    spec fn shape_spec(&self) -> Shape;

    /// The smallest envelope that holds the whole shape.
    fn envelope(&self) -> (envelope: Envelope)
        ensures
            envelope == self.shape_spec().spec_envelope(),
            envelope.well_formed(),
    ;

    fn into_shape(self) -> (shape: Shape)
        ensures
            shape == self.shape_spec(),
    ;

    fn as_any(&self) -> (any: ElementRef<'_>)
        ensures
            any.shape() == self.shape_spec(),
    ;

    /// The handle gives access to this very element: what is changed
    /// through it is changed here.
    fn as_any_mut(&mut self) -> (any: ElementMut<'_>)
        ensures
            any.shape() == old(self).shape_spec(),
            match any {
                ElementMut::Line(line) => final(self).shape_spec() == Shape::Line(*final(line)),
                ElementMut::Rectangle(rectangle) => final(self).shape_spec() == Shape::Rectangle(
                    *final(rectangle),
                ),
            },
    ;

    /// The concrete shape behind `any`, if it is of this kind.
    fn from_any<'a>(any: ElementRef<'a>) -> (found: Option<&'a Self>)
        ensures
            match found {
                Some(element) => element.shape_spec() == any.shape(),
                None => forall|element: Self| element.shape_spec() != any.shape(),
            },
    ;

    /// The concrete shape behind `any`, if it is of this kind, for changing
    /// it in place.
    fn from_any_mut<'a>(any: ElementMut<'a>) -> (found: Option<&'a mut Self>)
        ensures
            match found {
                Some(element) => {
                    &&& element.shape_spec() == any.shape()
                    &&& match any {
                        ElementMut::Line(line) => final(element).shape_spec() == Shape::Line(
                            *final(line),
                        ),
                        ElementMut::Rectangle(rectangle) => final(element).shape_spec()
                            == Shape::Rectangle(*final(rectangle)),
                    }
                },
                None => forall|element: Self| element.shape_spec() != any.shape(),
            },
    ;
}

impl Shape {
    /// The smallest envelope that holds the whole shape.
    pub open spec fn spec_envelope(&self) -> Envelope {
        match self {
            Shape::Line(line) => line.spec_envelope(),
            Shape::Rectangle(rectangle) => rectangle.spec_envelope(),
        }
    }

    /// The envelope of every shape is well formed.
    pub proof fn lemma_envelope_well_formed(self)
        ensures
            self.spec_envelope().well_formed(),
    {
        match self {
            Shape::Line(line) => line.lemma_envelope_well_formed(),
            Shape::Rectangle(rectangle) => rectangle.lemma_envelope_well_formed(),
        }
    }

    #[verifier::when_used_as_spec(spec_envelope)]
    pub fn envelope(&self) -> (envelope: Envelope)
        ensures
            envelope == self.spec_envelope(),
            envelope.well_formed(),
    {
        match self {
            Shape::Line(line) => line.envelope(),
            Shape::Rectangle(rectangle) => rectangle.envelope(),
        }
    }

    pub fn as_any(&self) -> (any: ElementRef<'_>)
        ensures
            any.shape() == *self,
    {
        match self {
            Shape::Line(line) => ElementRef::Line(line),
            Shape::Rectangle(rectangle) => ElementRef::Rectangle(rectangle),
        }
    }

    /// The handle gives access to this very shape: what is changed through
    /// it is changed here.
    pub fn as_any_mut(&mut self) -> (any: ElementMut<'_>)
        ensures
            any.shape() == *old(self),
            match any {
                ElementMut::Line(line) => *final(self) == Shape::Line(*final(line)),
                ElementMut::Rectangle(rectangle) => *final(self) == Shape::Rectangle(
                    *final(rectangle),
                ),
            },
    {
        match self {
            Shape::Line(line) => ElementMut::Line(line),
            Shape::Rectangle(rectangle) => ElementMut::Rectangle(rectangle),
        }
    }
}

impl<'a> ElementRef<'a> {
    /// The shape that the handle points at.
    pub open spec fn shape(self) -> Shape {
        match self {
            ElementRef::Line(line) => Shape::Line(*line),
            ElementRef::Rectangle(rectangle) => Shape::Rectangle(*rectangle),
        }
    }

    /// The concrete shape, if it is a `T`: `Some` exactly when the handle
    /// points at a shape of that kind.
    pub fn downcast_ref<T: Element>(self) -> (found: Option<&'a T>)
        ensures
            match found {
                Some(element) => element.shape_spec() == self.shape(),
                None => forall|element: T| element.shape_spec() != self.shape(),
            },
    {
        T::from_any(self)
    }
}

impl<'a> ElementMut<'a> {
    /// The shape that the handle points at now.
    pub open spec fn shape(self) -> Shape {
        match self {
            ElementMut::Line(line) => Shape::Line(*line),
            ElementMut::Rectangle(rectangle) => Shape::Rectangle(*rectangle),
        }
    }

    /// The concrete shape, if it is a `T`, for changing it in place: `Some`
    /// exactly when the handle points at a shape of that kind.
    pub fn downcast_mut<T: Element>(self) -> (found: Option<&'a mut T>)
        ensures
            match found {
                Some(element) => {
                    &&& element.shape_spec() == self.shape()
                    &&& match self {
                        ElementMut::Line(line) => final(element).shape_spec() == Shape::Line(
                            *final(line),
                        ),
                        ElementMut::Rectangle(rectangle) => final(element).shape_spec()
                            == Shape::Rectangle(*final(rectangle)),
                    }
                },
                None => forall|element: T| element.shape_spec() != self.shape(),
            },
    {
        T::from_any_mut(self)
    }
}

} // verus!
