//! Polylines in the Google polyline encoding.

use super::generics::{LengthExists, MissingLength, MissingPoints, PointsExists};
use crate::text::owned;
use core::marker::PhantomData;
use vstd::prelude::*;

verus! {

#[derive(Debug, Clone)]
pub struct EncodedPolyline {
    /// The number of points in the string
    pub length: i64,
    /// The encoded points of the polyline using the Google polyline encoding with precision 7.
    pub points: String,
}

impl EncodedPolyline {
    /// No points: length 0 and an empty string.
    pub open spec fn is_default(&self) -> bool {
        self.length == 0 && self.points@ == Seq::<char>::empty()
    }

    /// Create a builder for this object.
    pub fn builder() -> (r: EncodedPolylineBuilder<MissingLength, MissingPoints>)
        ensures
            r@.is_default(),
    {
        EncodedPolylineBuilder {
            body: EncodedPolyline::default(),
            _length: PhantomData,
            _points: PhantomData,
        }
    }

    /// The number of points in the string
    pub fn length(self, value: i64) -> (r: Self)
        ensures
            r == (EncodedPolyline { length: value, ..self }),
    {
        EncodedPolyline { length: value, ..self }
    }

    /// The encoded points of the polyline using the Google polyline encoding with precision 7.
    pub fn points(self, value: &str) -> (r: Self)
        ensures
            r.length == self.length,
            r.points@ == value@,
    {
        EncodedPolyline { points: owned(value), ..self }
    }
}

impl Default for EncodedPolyline {
    fn default() -> (r: Self)
        ensures
            r.is_default(),
    {
        EncodedPolyline { length: 0, points: String::new() }
    }
}

/// Builder for [`EncodedPolyline`] object; its type records which required
/// fields have been supplied.
#[derive(Debug)]
pub struct EncodedPolylineBuilder<Length, Points> {
    body: EncodedPolyline,
    _length: PhantomData<Length>,
    _points: PhantomData<Points>,
}

impl<Length, Points> View for EncodedPolylineBuilder<Length, Points> {
    type V = EncodedPolyline;

    /// The object built so far.
    closed spec fn view(&self) -> EncodedPolyline {
        self.body
    }
}

impl<Length, Points> EncodedPolylineBuilder<Length, Points> {
    /// The number of points in the string
    pub fn length(self, value: i64) -> (r: EncodedPolylineBuilder<LengthExists, Points>)
        ensures
            r@ == (EncodedPolyline { length: value, ..self@ }),
    {
        EncodedPolylineBuilder {
            body: EncodedPolyline { length: value, ..self.body },
            _length: PhantomData,
            _points: PhantomData,
        }
    }

    /// The encoded points of the polyline using the Google polyline encoding with precision 7.
    pub fn points(self, value: String) -> (r: EncodedPolylineBuilder<Length, PointsExists>)
        ensures
            r@ == (EncodedPolyline { points: value, ..self@ }),
    {
        EncodedPolylineBuilder {
            body: EncodedPolyline { points: value, ..self.body },
            _length: PhantomData,
            _points: PhantomData,
        }
    }
}

impl From<EncodedPolylineBuilder<LengthExists, PointsExists>> for EncodedPolyline {
    fn from(value: EncodedPolylineBuilder<LengthExists, PointsExists>) -> (r: Self)
        ensures
            r == value@,
    {
        value.body
    }
}

impl vstd::std_specs::convert::FromSpecImpl<EncodedPolylineBuilder<LengthExists, PointsExists>> for EncodedPolyline {
    open spec fn obeys_from_spec() -> bool {
        true
    }

    open spec fn from_spec(v: EncodedPolylineBuilder<LengthExists, PointsExists>) -> Self {
        v@
    }
}

/// Converting a builder whose required fields have all been supplied gives
/// exactly the object built so far.
pub proof fn law_encoded_polyline_from_builder_is_built_object(b: EncodedPolylineBuilder<LengthExists, PointsExists>)
    ensures
        <EncodedPolyline as vstd::std_specs::convert::FromSpec<EncodedPolylineBuilder<LengthExists, PointsExists>>>::from_spec(b) == b@,
{
}

/// The default object, which a new builder starts from, holds nothing:
/// every optional field is empty, and the required ones are empty or zero.
pub proof fn law_default_encoded_polyline_is_empty(r: EncodedPolyline)
    requires
        r.is_default(),
    ensures
        r.length == 0,
        r.points@ == Seq::<char>::empty(),
{
}

} // verus!
