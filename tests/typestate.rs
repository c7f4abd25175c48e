use idioms::light::{Light, LIGHT_DEFAULT_INTENSITY};
use idioms::lumiere::{Lumiere, LUMIERE_DEFAULT_INTENSITY};
use idioms::luz::Luz;

#[test]
fn light_impl() {
    let mut light: Light = Light::new();
    assert_eq!(light.intensity(), 0);
    assert_eq!(light.is_on(), false);
    light.toggle();
    assert_eq!(light.is_on(), true);
    light.regulate_intensity(200);
    assert_eq!(light.intensity(), 200);
    light.toggle();
    assert_eq!(light.is_on(), false);
}

#[test]
fn luz_impl() {
    let luz = Luz::new();
    assert_eq!(luz.is_on(), false);
    let luz = luz.toggle();
    assert_eq!(luz.is_on(), true);
    let luz = luz.toggle();
    assert_eq!(luz.is_on(), false);
}

#[test]
fn lumiere_impl() {
    let lumiere = Lumiere::new();
    assert_eq!(lumiere.is_on(), false);
    let mut lumiere = lumiere.toggle();
    assert_eq!(lumiere.get_intensity(), 0);
    lumiere.regulate_intensity(220);
    assert_eq!(lumiere.get_intensity(), 220);
    let lumiere = lumiere.toggle();
    assert_eq!(lumiere.is_on(), false);
}

#[test]
fn light_toggles_alternate() {
    let mut light = Light::new();
    for i in 0..9u32 {
        assert_eq!(light.is_on(), i % 2 == 1);
        if light.is_on() {
            assert_eq!(light.intensity(), LIGHT_DEFAULT_INTENSITY);
        } else {
            assert_eq!(light.intensity(), 0);
        }
        light.toggle();
    }
}

#[test]
fn light_default_intensity_is_ten() {
    let mut light = Light::new();
    light.toggle();
    assert_eq!(light.intensity(), 10);
    assert_eq!(LIGHT_DEFAULT_INTENSITY, 10);
}

#[test]
fn new_light_is_off_at_zero() {
    let light = Light::new();
    assert!(!light.is_on());
    assert_eq!(light.intensity(), 0);
    let lumiere = Lumiere::new();
    assert!(!lumiere.is_on());
}

#[test]
fn regulating_an_off_light_does_nothing() {
    let mut light = Light::new();
    light.regulate_intensity(123);
    assert!(!light.is_on());
    assert_eq!(light.intensity(), 0);
    light.toggle();
    light.regulate_intensity(50);
    light.toggle();
    light.regulate_intensity(77);
    assert!(!light.is_on());
    assert_eq!(light.intensity(), 0);
}

#[test]
fn light_scenario() {
    let mut light = Light::new();
    light.toggle();
    assert!(light.is_on());
    assert_eq!(light.intensity(), 10);
    light.regulate_intensity(200);
    assert_eq!(light.intensity(), 200);
    light.toggle();
    assert!(!light.is_on());
    assert_eq!(light.intensity(), 0);
}

#[test]
fn lumiere_scenario() {
    let lumiere = Lumiere::new().toggle();
    assert!(lumiere.is_on());
    assert_eq!(lumiere.get_intensity(), LUMIERE_DEFAULT_INTENSITY);
    assert_eq!(lumiere.get_intensity(), 0);
    let mut lumiere = lumiere;
    lumiere.regulate_intensity(200);
    assert_eq!(lumiere.get_intensity(), 200);
    let lumiere = lumiere.toggle();
    assert!(!lumiere.is_on());
}

#[test]
fn toggling_twice_keeps_state_not_intensity() {
    let mut light = Light::new();
    light.toggle();
    light.regulate_intensity(200);
    light.toggle();
    light.toggle();
    assert!(light.is_on());
    assert_eq!(light.intensity(), 10);

    let mut lumiere = Lumiere::new().toggle();
    lumiere.regulate_intensity(99);
    let lumiere = lumiere.toggle().toggle();
    assert!(lumiere.is_on());
    assert_eq!(lumiere.get_intensity(), 0);

    let luz = Luz::new().toggle().toggle();
    assert!(!luz.is_on());
}

#[test]
fn light_describes_itself() {
    let mut light = Light::new();
    assert_eq!(light.describe(), "Light is Off");
    light.toggle();
    assert_eq!(light.describe(), "Light is On with intensity 10");
    light.regulate_intensity(200);
    assert_eq!(light.describe(), "Light is On with intensity 200");
    light.regulate_intensity(0);
    assert_eq!(light.describe(), "Light is On with intensity 0");
    light.regulate_intensity(7);
    assert_eq!(light.describe(), "Light is On with intensity 7");
    light.toggle();
    assert_eq!(light.describe(), "Light is Off");
}
