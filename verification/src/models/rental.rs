//! Vehicle rentals.

use super::enums::{RentalFormFactor, RentalPropulsionType, RentalReturnConstraint};
use super::generics::{MissingSystemId, SystemIdExists};
use core::marker::PhantomData;
use vstd::prelude::*;

verus! {

/// Vehicle rental
#[derive(Debug, Clone)]
pub struct Rental {
    pub form_factor: Option<RentalFormFactor>,
    pub propulsion_type: Option<RentalPropulsionType>,
    /// Rental URI for Android (deep link to the specific station or vehicle)
    pub rental_uri_android: Option<String>,
    /// Rental URI for iOS (deep link to the specific station or vehicle)
    pub rental_uri_ios: Option<String>,
    /// Rental URI for web (deep link to the specific station or vehicle)
    pub rental_uri_web: Option<String>,
    pub return_constraint: Option<RentalReturnConstraint>,
    /// Name of the station
    pub station_name: Option<String>,
    /// Vehicle share system ID
    pub system_id: String,
    /// Vehicle share system name
    pub system_name: Option<String>,
    /// URL of the vehicle share system
    pub url: Option<String>,
}

impl Rental {
    /// Nothing known: every optional field empty and an empty system id.
    pub open spec fn is_default(&self) -> bool {
        &&& self.form_factor is None
        &&& self.propulsion_type is None
        &&& self.rental_uri_android is None
        &&& self.rental_uri_ios is None
        &&& self.rental_uri_web is None
        &&& self.return_constraint is None
        &&& self.station_name is None
        &&& self.system_id@ == Seq::<char>::empty()
        &&& self.system_name is None
        &&& self.url is None
    }

    /// Create a builder for this object.
    pub fn builder() -> (r: RentalBuilder<MissingSystemId>)
        ensures
            r@.is_default(),
    {
        RentalBuilder { body: Rental::default(), _system_id: PhantomData }
    }
}

impl Default for Rental {
    fn default() -> (r: Self)
        ensures
            r.is_default(),
    {
        Rental {
            form_factor: None,
            propulsion_type: None,
            rental_uri_android: None,
            rental_uri_ios: None,
            rental_uri_web: None,
            return_constraint: None,
            station_name: None,
            system_id: String::new(),
            system_name: None,
            url: None,
        }
    }
}

/// Builder for [`Rental`] object; its type records whether the required
/// system id has been supplied.
#[derive(Debug)]
pub struct RentalBuilder<SystemId> {
    body: Rental,
    _system_id: PhantomData<SystemId>,
}

impl<SystemId> View for RentalBuilder<SystemId> {
    type V = Rental;

    /// The object built so far.
    closed spec fn view(&self) -> Rental {
        self.body
    }
}

impl<SystemId> RentalBuilder<SystemId> {
    pub fn form_factor(self, value: RentalFormFactor) -> (r: Self)
        ensures
            r@ == (Rental { form_factor: Some(value), ..self@ }),
    {
        RentalBuilder { body: Rental { form_factor: Some(value), ..self.body }, _system_id: PhantomData }
    }

    pub fn propulsion_type(self, value: RentalPropulsionType) -> (r: Self)
        ensures
            r@ == (Rental { propulsion_type: Some(value), ..self@ }),
    {
        RentalBuilder { body: Rental { propulsion_type: Some(value), ..self.body }, _system_id: PhantomData }
    }

    /// Rental URI for Android (deep link to the specific station or vehicle)
    pub fn rental_uri_android(self, value: String) -> (r: Self)
        ensures
            r@ == (Rental { rental_uri_android: Some(value), ..self@ }),
    {
        RentalBuilder { body: Rental { rental_uri_android: Some(value), ..self.body }, _system_id: PhantomData }
    }

    /// Rental URI for iOS (deep link to the specific station or vehicle)
    pub fn rental_uri_ios(self, value: String) -> (r: Self)
        ensures
            r@ == (Rental { rental_uri_ios: Some(value), ..self@ }),
    {
        RentalBuilder { body: Rental { rental_uri_ios: Some(value), ..self.body }, _system_id: PhantomData }
    }

    /// Rental URI for web (deep link to the specific station or vehicle)
    pub fn rental_uri_web(self, value: String) -> (r: Self)
        ensures
            r@ == (Rental { rental_uri_web: Some(value), ..self@ }),
    {
        RentalBuilder { body: Rental { rental_uri_web: Some(value), ..self.body }, _system_id: PhantomData }
    }

    pub fn return_constraint(self, value: RentalReturnConstraint) -> (r: Self)
        ensures
            r@ == (Rental { return_constraint: Some(value), ..self@ }),
    {
        RentalBuilder { body: Rental { return_constraint: Some(value), ..self.body }, _system_id: PhantomData }
    }

    /// Name of the station
    pub fn station_name(self, value: String) -> (r: Self)
        ensures
            r@ == (Rental { station_name: Some(value), ..self@ }),
    {
        RentalBuilder { body: Rental { station_name: Some(value), ..self.body }, _system_id: PhantomData }
    }

    /// Vehicle share system ID
    pub fn system_id(self, value: String) -> (r: RentalBuilder<SystemIdExists>)
        ensures
            r@ == (Rental { system_id: value, ..self@ }),
    {
        RentalBuilder { body: Rental { system_id: value, ..self.body }, _system_id: PhantomData }
    }

    /// Vehicle share system name
    pub fn system_name(self, value: String) -> (r: Self)
        ensures
            r@ == (Rental { system_name: Some(value), ..self@ }),
    {
        RentalBuilder { body: Rental { system_name: Some(value), ..self.body }, _system_id: PhantomData }
    }

    /// URL of the vehicle share system
    pub fn url(self, value: String) -> (r: Self)
        ensures
            r@ == (Rental { url: Some(value), ..self@ }),
    {
        RentalBuilder { body: Rental { url: Some(value), ..self.body }, _system_id: PhantomData }
    }
}

impl From<RentalBuilder<SystemIdExists>> for Rental {
    fn from(value: RentalBuilder<SystemIdExists>) -> (r: Self)
        ensures
            r == value@,
    {
        value.body
    }
}

impl vstd::std_specs::convert::FromSpecImpl<RentalBuilder<SystemIdExists>> for Rental {
    open spec fn obeys_from_spec() -> bool {
        true
    }

    open spec fn from_spec(v: RentalBuilder<SystemIdExists>) -> Self {
        v@
    }
}

/// Converting a builder whose required fields have all been supplied gives
/// exactly the object built so far.
pub proof fn law_rental_from_builder_is_built_object(b: RentalBuilder<SystemIdExists>)
    ensures
        <Rental as vstd::std_specs::convert::FromSpec<RentalBuilder<SystemIdExists>>>::from_spec(b) == b@,
{
}

/// The default object, which a new builder starts from, holds nothing:
/// every optional field is empty, and the required ones are empty or zero.
pub proof fn law_default_rental_is_empty(r: Rental)
    requires
        r.is_default(),
    ensures
        r.form_factor is None,
        r.propulsion_type is None,
        r.rental_uri_android is None,
        r.rental_uri_ios is None,
        r.rental_uri_web is None,
        r.return_constraint is None,
        r.station_name is None,
        r.system_id@ == Seq::<char>::empty(),
        r.system_name is None,
        r.url is None,
{
}

} // verus!
