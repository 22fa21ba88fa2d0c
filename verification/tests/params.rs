use wavetable::graintable::params as grain_params;
use wavetable::plugin;

#[test]
fn plugin_parameter_names() {
    assert_eq!(plugin::get_parameter_name(0), "osc1 WT pos");
    assert_eq!(plugin::get_parameter_name(7), "osc1 octave");
    assert_eq!(plugin::get_parameter_name(16), "cutoff amount");
    assert_eq!(plugin::get_parameter_name(17), "grain unison");
    assert_eq!(plugin::get_parameter_name(18), "");
    assert_eq!(plugin::get_parameter_name(-1), "");
    assert_eq!(plugin::PARAMETERS, 18);
}

#[test]
fn plugin_parameter_labels() {
    assert_eq!(plugin::get_parameter_label(0), "");
    assert_eq!(plugin::get_parameter_label(1), "%");
    assert_eq!(plugin::get_parameter_label(8), "Hz");
    assert_eq!(plugin::get_parameter_label(10), "poles");
    assert_eq!(plugin::get_parameter_label(12), "ms");
    assert_eq!(plugin::get_parameter_label(17), "voices");
    assert_eq!(plugin::get_parameter_label(40), "");
}

#[test]
fn graintable_parameter_names_and_labels() {
    assert_eq!(grain_params::get_parameter_name(17), "grain pos");
    assert_eq!(grain_params::get_parameter_name(19), "grain osc volume");
    assert_eq!(grain_params::get_parameter_name(20), "grain unison");
    assert_eq!(grain_params::get_parameter_name(21), "");
    assert_eq!(grain_params::get_parameter_label(18), "ms");
    assert_eq!(grain_params::get_parameter_label(20), "voices");
    assert_eq!(grain_params::PARAMETERS, 21);
}
