//! A record with three required fields and six optional ones, built by a
//! constructor followed by one `with_` call for each optional field wanted.
use vstd::prelude::*;

verus! {

/// What can be observed of a `Person`, with its texts as sequences of
/// characters.
pub struct PersonView {
    pub name: Seq<char>,
    pub family_name: Seq<char>,
    pub age: u8,
    pub phone: Option<u64>,
    pub home_address: Option<Seq<char>>,
    pub job_title: Option<Seq<char>>,
    pub education: Option<Seq<char>>,
    pub residency: Option<Seq<char>>,
    pub nationality: Option<Seq<char>>,
}

/// The characters of an optional text.
pub open spec fn text_view(t: Option<String>) -> Option<Seq<char>> {
    match t {
        Some(s) => Some(s@),
        None => None,
    }
}

/// A person, with a name, a family name and an age, and optionally a phone
/// number, a home address, a job title, an education, a residency and a
/// nationality.
#[derive(Debug)]
pub struct Person {
    name: String,
    family_name: String,
    age: u8,
    phone: Option<u64>,
    home_address: Option<String>,
    job_title: Option<String>,
    education: Option<String>,
    residency: Option<String>,
    nationality: Option<String>,
}

impl View for Person {
    type V = PersonView;

    closed spec fn view(&self) -> PersonView {
        PersonView {
            name: self.name@,
            family_name: self.family_name@,
            age: self.age,
            phone: self.phone,
            home_address: text_view(self.home_address),
            job_title: text_view(self.job_title),
            education: text_view(self.education),
            residency: text_view(self.residency),
            nationality: text_view(self.nationality),
        }
    }
}

impl Person {
    /// A person with the given required fields and no optional one.
    pub fn new(name: String, family_name: String, age: u8) -> (r: Person)
        ensures
            r@ == (PersonView {
                name: name@,
                family_name: family_name@,
                age,
                phone: None,
                home_address: None,
                job_title: None,
                education: None,
                residency: None,
                nationality: None,
            }),
    {
        Person {
            name,
            family_name,
            age,
            phone: None,
            home_address: None,
            job_title: None,
            education: None,
            residency: None,
            nationality: None,
        }
    }

    /// The same person, with the phone number set.
    pub fn with_phone(self, phone: u64) -> (r: Person)
        ensures
            r@ == (PersonView { phone: Some(phone), ..self@ }),
    {
        Person { phone: Some(phone), ..self }
    }

    /// The same person, with the home address set.
    pub fn with_home_address(self, home_address: String) -> (r: Person)
        ensures
            r@ == (PersonView { home_address: Some(home_address@), ..self@ }),
    {
        Person { home_address: Some(home_address), ..self }
    }

    /// The same person, with the job title set.
    pub fn with_job_title(self, job_title: String) -> (r: Person)
        ensures
            r@ == (PersonView { job_title: Some(job_title@), ..self@ }),
    {
        Person { job_title: Some(job_title), ..self }
    }

    /// The same person, with the education set.
    pub fn with_education(self, education: String) -> (r: Person)
        ensures
            r@ == (PersonView { education: Some(education@), ..self@ }),
    {
        Person { education: Some(education), ..self }
    }

    /// The same person, with the residency set.
    pub fn with_residency(self, residency: String) -> (r: Person)
        ensures
            r@ == (PersonView { residency: Some(residency@), ..self@ }),
    {
        Person { residency: Some(residency), ..self }
    }

    /// The same person, with the nationality set.
    pub fn with_nationality(self, nationality: String) -> (r: Person)
        ensures
            r@ == (PersonView { nationality: Some(nationality@), ..self@ }),
    {
        Person { nationality: Some(nationality), ..self }
    }
}

} // verus!
