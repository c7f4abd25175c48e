use idioms::person::Person;

#[test]
fn new_person_has_no_optional_field() {
    let person = Person::new(String::from("Hector"), String::from("Alarcon"), 28);
    assert_eq!(
        format!("{:?}", person),
        "Person { name: \"Hector\", family_name: \"Alarcon\", age: 28, phone: None, \
         home_address: None, job_title: None, education: None, residency: None, \
         nationality: None }"
    );
}

#[test]
fn builders_set_their_fields() {
    let person = Person::new(String::from("Hector"), String::from("Alarcon"), 28)
        .with_job_title(String::from("Software Engineer"))
        .with_phone(12345678)
        .with_nationality(String::from("Spanish"))
        .with_home_address(String::from("Main St"))
        .with_education(String::from("MSc"))
        .with_residency(String::from("Madrid"));
    assert_eq!(
        format!("{:?}", person),
        "Person { name: \"Hector\", family_name: \"Alarcon\", age: 28, phone: Some(12345678), \
         home_address: Some(\"Main St\"), job_title: Some(\"Software Engineer\"), \
         education: Some(\"MSc\"), residency: Some(\"Madrid\"), nationality: Some(\"Spanish\") }"
    );
}
