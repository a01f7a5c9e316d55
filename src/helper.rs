//! Listings of ISO 3166 countries and their subdivisions, as handed to
//! front ends.
use vstd::prelude::*;

verus! {

/// A country by name and alpha-2 code.
#[derive(Clone, Debug)]
pub struct Country {
    name: String,
    alpha2: String,
}

/// A subdivision by name and ISO 3166-2 code.
#[derive(Clone, Debug)]
pub struct Subdivision {
    name: String,
    code: String,
}

/// A country with its subdivisions.
#[derive(Clone, Debug)]
pub struct CountryWithSubdivisions {
    code: String,
    name: String,
    divisions: Vec<Subdivision>,
}

impl Country {
    pub closed spec fn name_spec(&self) -> String {
        self.name
    }

    pub closed spec fn alpha2_spec(&self) -> String {
        self.alpha2
    }

    pub fn new(name: String, alpha2: String) -> (r: Country)
        ensures
            r.name_spec() == name,
            r.alpha2_spec() == alpha2,
    {
        Country { name, alpha2 }
    }

    pub fn name(&self) -> (r: &String)
        ensures
            *r == self.name_spec(),
    {
        &self.name
    }

    pub fn alpha2(&self) -> (r: &String)
        ensures
            *r == self.alpha2_spec(),
    {
        &self.alpha2
    }
}

impl Subdivision {
    pub closed spec fn name_spec(&self) -> String {
        self.name
    }

    pub closed spec fn code_spec(&self) -> String {
        self.code
    }

    pub fn new(name: String, code: String) -> (r: Subdivision)
        ensures
            r.name_spec() == name,
            r.code_spec() == code,
    {
        Subdivision { name, code }
    }

    pub fn name(&self) -> (r: &String)
        ensures
            *r == self.name_spec(),
    {
        &self.name
    }

    pub fn code(&self) -> (r: &String)
        ensures
            *r == self.code_spec(),
    {
        &self.code
    }
}

impl CountryWithSubdivisions {
    pub closed spec fn code_spec(&self) -> String {
        self.code
    }

    pub closed spec fn name_spec(&self) -> String {
        self.name
    }

    pub closed spec fn divisions_spec(&self) -> Vec<Subdivision> {
        self.divisions
    }

    pub fn new(code: String, name: String, divisions: Vec<Subdivision>) -> (r: CountryWithSubdivisions)
        ensures
            r.code_spec() == code,
            r.name_spec() == name,
            r.divisions_spec() == divisions,
    {
        CountryWithSubdivisions { code, name, divisions }
    }

    pub fn code(&self) -> (r: &String)
        ensures
            *r == self.code_spec(),
    {
        &self.code
    }

    pub fn name(&self) -> (r: &String)
        ensures
            *r == self.name_spec(),
    {
        &self.name
    }

    pub fn divisions(&self) -> (r: &Vec<Subdivision>)
        ensures
            *r == self.divisions_spec(),
    {
        &self.divisions
    }
}

} // verus!
