//! The parameters the plugin shows to its host: one name and one unit per index.
use vstd::prelude::*;

verus! {

/// Number of parameters the host sees.
pub const PARAMETERS: i32 = 18;

/// The name shown for parameter `index`; empty for an unknown index.
pub open spec fn parameter_name(index: i32) -> Seq<char> {
    if index == 0 {
        "osc1 WT pos"@
    } else if index == 1 {
        "osc1 volume"@
    } else if index == 2 {
        "osc1 detune"@
    } else if index == 3 {
        "osc1 octave"@
    } else if index == 4 {
        "osc2 WT pos"@
    } else if index == 5 {
        "osc2 volume"@
    } else if index == 6 {
        "osc2 detune"@
    } else if index == 7 {
        "osc1 octave"@
    } else if index == 8 {
        "cutoff"@
    } else if index == 9 {
        "res"@
    } else if index == 10 {
        "filter order"@
    } else if index == 11 {
        "drive"@
    } else if index == 12 {
        "attack time"@
    } else if index == 13 {
        "decay time"@
    } else if index == 14 {
        "sustain level"@
    } else if index == 15 {
        "release time"@
    } else if index == 16 {
        "cutoff amount"@
    } else if index == 17 {
        "grain unison"@
    } else {
        ""@
    }
}

/// The unit shown after the value of parameter `index`; empty for an unknown index.
pub open spec fn parameter_label(index: i32) -> Seq<char> {
    if index == 0 {
        ""@
    } else if index == 1 {
        "%"@
    } else if index == 2 {
        ""@
    } else if index == 3 {
        ""@
    } else if index == 4 {
        ""@
    } else if index == 5 {
        "%"@
    } else if index == 6 {
        ""@
    } else if index == 7 {
        ""@
    } else if index == 8 {
        "Hz"@
    } else if index == 9 {
        "%"@
    } else if index == 10 {
        "poles"@
    } else if index == 11 {
        "%"@
    } else if index == 12 {
        "ms"@
    } else if index == 13 {
        "ms"@
    } else if index == 14 {
        "%"@
    } else if index == 15 {
        "ms"@
    } else if index == 16 {
        "%"@
    } else if index == 17 {
        "voices"@
    } else {
        ""@
    }
}

/// The names of the parameters, entry by entry, and their units.
pub proof fn lemma_parameter_table()
    ensures
        forall|i: i32|
            0 <= i < PARAMETERS ==> #[trigger] parameter_name(i) == seq![
            "osc1 WT pos"@,
            "osc1 volume"@,
            "osc1 detune"@,
            "osc1 octave"@,
            "osc2 WT pos"@,
            "osc2 volume"@,
            "osc2 detune"@,
            "osc1 octave"@,
            "cutoff"@,
            "res"@,
            "filter order"@,
            "drive"@,
            "attack time"@,
            "decay time"@,
            "sustain level"@,
            "release time"@,
            "cutoff amount"@,
            "grain unison"@
        ][i as int],
        forall|i: i32|
            0 <= i < PARAMETERS ==> #[trigger] parameter_label(i) == seq![
            ""@,
            "%"@,
            ""@,
            ""@,
            ""@,
            "%"@,
            ""@,
            ""@,
            "Hz"@,
            "%"@,
            "poles"@,
            "%"@,
            "ms"@,
            "ms"@,
            "%"@,
            "ms"@,
            "%"@,
            "voices"@
        ][i as int],
        forall|i: i32| !(0 <= i < PARAMETERS) ==> #[trigger] parameter_name(i) == ""@ && parameter_label(i) == ""@,
{
}

/// No two parameters share a name, except the two octave controls, both named
/// "osc1 octave": the host can tell every other control apart by its name.
pub proof fn lemma_parameter_names_distinct()
    ensures
        forall|i: i32, j: i32|
            0 <= i < j < PARAMETERS && !(i == 3 && j == 7) ==> #[trigger] parameter_name(i)
                != #[trigger] parameter_name(j),
{
    reveal_strlit("");
    reveal_strlit("%");
    reveal_strlit("Hz");
    reveal_strlit("attack time");
    reveal_strlit("cutoff");
    reveal_strlit("cutoff amount");
    reveal_strlit("decay time");
    reveal_strlit("drive");
    reveal_strlit("filter order");
    reveal_strlit("grain unison");
    reveal_strlit("ms");
    reveal_strlit("osc1 WT pos");
    reveal_strlit("osc1 detune");
    reveal_strlit("osc1 octave");
    reveal_strlit("osc1 volume");
    reveal_strlit("osc2 WT pos");
    reveal_strlit("osc2 detune");
    reveal_strlit("osc2 volume");
    reveal_strlit("poles");
    reveal_strlit("release time");
    reveal_strlit("res");
    reveal_strlit("sustain level");
    reveal_strlit("voices");
    assert forall|i: i32, j: i32|
        0 <= i < j < PARAMETERS && !(i == 3 && j == 7) implies #[trigger] parameter_name(i)
            != #[trigger] parameter_name(j) by {
        if i == 0 {
            if j == 1 {
                assert(parameter_name(0)[5] != parameter_name(1)[5]);
            }
            if j == 2 {
                assert(parameter_name(0)[5] != parameter_name(2)[5]);
            }
            if j == 3 {
                assert(parameter_name(0)[5] != parameter_name(3)[5]);
            }
            if j == 4 {
                assert(parameter_name(0)[3] != parameter_name(4)[3]);
            }
            if j == 5 {
                assert(parameter_name(0)[3] != parameter_name(5)[3]);
            }
            if j == 6 {
                assert(parameter_name(0)[3] != parameter_name(6)[3]);
            }
            if j == 7 {
                assert(parameter_name(0)[5] != parameter_name(7)[5]);
            }
            if j == 8 {
                assert(parameter_name(0).len() != parameter_name(8).len());
            }
            if j == 9 {
                assert(parameter_name(0).len() != parameter_name(9).len());
            }
            if j == 10 {
                assert(parameter_name(0).len() != parameter_name(10).len());
            }
            if j == 11 {
                assert(parameter_name(0).len() != parameter_name(11).len());
            }
            if j == 12 {
                assert(parameter_name(0)[0] != parameter_name(12)[0]);
            }
            if j == 13 {
                assert(parameter_name(0).len() != parameter_name(13).len());
            }
            if j == 14 {
                assert(parameter_name(0).len() != parameter_name(14).len());
            }
            if j == 15 {
                assert(parameter_name(0).len() != parameter_name(15).len());
            }
            if j == 16 {
                assert(parameter_name(0).len() != parameter_name(16).len());
            }
            if j == 17 {
                assert(parameter_name(0).len() != parameter_name(17).len());
            }
        }
        if i == 1 {
            if j == 2 {
                assert(parameter_name(1)[5] != parameter_name(2)[5]);
            }
            if j == 3 {
                assert(parameter_name(1)[5] != parameter_name(3)[5]);
            }
            if j == 4 {
                assert(parameter_name(1)[3] != parameter_name(4)[3]);
            }
            if j == 5 {
                assert(parameter_name(1)[3] != parameter_name(5)[3]);
            }
            if j == 6 {
                assert(parameter_name(1)[3] != parameter_name(6)[3]);
            }
            if j == 7 {
                assert(parameter_name(1)[5] != parameter_name(7)[5]);
            }
            if j == 8 {
                assert(parameter_name(1).len() != parameter_name(8).len());
            }
            if j == 9 {
                assert(parameter_name(1).len() != parameter_name(9).len());
            }
            if j == 10 {
                assert(parameter_name(1).len() != parameter_name(10).len());
            }
            if j == 11 {
                assert(parameter_name(1).len() != parameter_name(11).len());
            }
            if j == 12 {
                assert(parameter_name(1)[0] != parameter_name(12)[0]);
            }
            if j == 13 {
                assert(parameter_name(1).len() != parameter_name(13).len());
            }
            if j == 14 {
                assert(parameter_name(1).len() != parameter_name(14).len());
            }
            if j == 15 {
                assert(parameter_name(1).len() != parameter_name(15).len());
            }
            if j == 16 {
                assert(parameter_name(1).len() != parameter_name(16).len());
            }
            if j == 17 {
                assert(parameter_name(1).len() != parameter_name(17).len());
            }
        }
        if i == 2 {
            if j == 3 {
                assert(parameter_name(2)[5] != parameter_name(3)[5]);
            }
            if j == 4 {
                assert(parameter_name(2)[3] != parameter_name(4)[3]);
            }
            if j == 5 {
                assert(parameter_name(2)[3] != parameter_name(5)[3]);
            }
            if j == 6 {
                assert(parameter_name(2)[3] != parameter_name(6)[3]);
            }
            if j == 7 {
                assert(parameter_name(2)[5] != parameter_name(7)[5]);
            }
            if j == 8 {
                assert(parameter_name(2).len() != parameter_name(8).len());
            }
            if j == 9 {
                assert(parameter_name(2).len() != parameter_name(9).len());
            }
            if j == 10 {
                assert(parameter_name(2).len() != parameter_name(10).len());
            }
            if j == 11 {
                assert(parameter_name(2).len() != parameter_name(11).len());
            }
            if j == 12 {
                assert(parameter_name(2)[0] != parameter_name(12)[0]);
            }
            if j == 13 {
                assert(parameter_name(2).len() != parameter_name(13).len());
            }
            if j == 14 {
                assert(parameter_name(2).len() != parameter_name(14).len());
            }
            if j == 15 {
                assert(parameter_name(2).len() != parameter_name(15).len());
            }
            if j == 16 {
                assert(parameter_name(2).len() != parameter_name(16).len());
            }
            if j == 17 {
                assert(parameter_name(2).len() != parameter_name(17).len());
            }
        }
        if i == 3 {
            if j == 4 {
                assert(parameter_name(3)[3] != parameter_name(4)[3]);
            }
            if j == 5 {
                assert(parameter_name(3)[3] != parameter_name(5)[3]);
            }
            if j == 6 {
                assert(parameter_name(3)[3] != parameter_name(6)[3]);
            }
            if j == 8 {
                assert(parameter_name(3).len() != parameter_name(8).len());
            }
            if j == 9 {
                assert(parameter_name(3).len() != parameter_name(9).len());
            }
            if j == 10 {
                assert(parameter_name(3).len() != parameter_name(10).len());
            }
            if j == 11 {
                assert(parameter_name(3).len() != parameter_name(11).len());
            }
            if j == 12 {
                assert(parameter_name(3)[0] != parameter_name(12)[0]);
            }
            if j == 13 {
                assert(parameter_name(3).len() != parameter_name(13).len());
            }
            if j == 14 {
                assert(parameter_name(3).len() != parameter_name(14).len());
            }
            if j == 15 {
                assert(parameter_name(3).len() != parameter_name(15).len());
            }
            if j == 16 {
                assert(parameter_name(3).len() != parameter_name(16).len());
            }
            if j == 17 {
                assert(parameter_name(3).len() != parameter_name(17).len());
            }
        }
        if i == 4 {
            if j == 5 {
                assert(parameter_name(4)[5] != parameter_name(5)[5]);
            }
            if j == 6 {
                assert(parameter_name(4)[5] != parameter_name(6)[5]);
            }
            if j == 7 {
                assert(parameter_name(4)[3] != parameter_name(7)[3]);
            }
            if j == 8 {
                assert(parameter_name(4).len() != parameter_name(8).len());
            }
            if j == 9 {
                assert(parameter_name(4).len() != parameter_name(9).len());
            }
            if j == 10 {
                assert(parameter_name(4).len() != parameter_name(10).len());
            }
            if j == 11 {
                assert(parameter_name(4).len() != parameter_name(11).len());
            }
            if j == 12 {
                assert(parameter_name(4)[0] != parameter_name(12)[0]);
            }
            if j == 13 {
                assert(parameter_name(4).len() != parameter_name(13).len());
            }
            if j == 14 {
                assert(parameter_name(4).len() != parameter_name(14).len());
            }
            if j == 15 {
                assert(parameter_name(4).len() != parameter_name(15).len());
            }
            if j == 16 {
                assert(parameter_name(4).len() != parameter_name(16).len());
            }
            if j == 17 {
                assert(parameter_name(4).len() != parameter_name(17).len());
            }
        }
        if i == 5 {
            if j == 6 {
                assert(parameter_name(5)[5] != parameter_name(6)[5]);
            }
            if j == 7 {
                assert(parameter_name(5)[3] != parameter_name(7)[3]);
            }
            if j == 8 {
                assert(parameter_name(5).len() != parameter_name(8).len());
            }
            if j == 9 {
                assert(parameter_name(5).len() != parameter_name(9).len());
            }
            if j == 10 {
                assert(parameter_name(5).len() != parameter_name(10).len());
            }
            if j == 11 {
                assert(parameter_name(5).len() != parameter_name(11).len());
            }
            if j == 12 {
                assert(parameter_name(5)[0] != parameter_name(12)[0]);
            }
            if j == 13 {
                assert(parameter_name(5).len() != parameter_name(13).len());
            }
            if j == 14 {
                assert(parameter_name(5).len() != parameter_name(14).len());
            }
            if j == 15 {
                assert(parameter_name(5).len() != parameter_name(15).len());
            }
            if j == 16 {
                assert(parameter_name(5).len() != parameter_name(16).len());
            }
            if j == 17 {
                assert(parameter_name(5).len() != parameter_name(17).len());
            }
        }
        if i == 6 {
            if j == 7 {
                assert(parameter_name(6)[3] != parameter_name(7)[3]);
            }
            if j == 8 {
                assert(parameter_name(6).len() != parameter_name(8).len());
            }
            if j == 9 {
                assert(parameter_name(6).len() != parameter_name(9).len());
            }
            if j == 10 {
                assert(parameter_name(6).len() != parameter_name(10).len());
            }
            if j == 11 {
                assert(parameter_name(6).len() != parameter_name(11).len());
            }
            if j == 12 {
                assert(parameter_name(6)[0] != parameter_name(12)[0]);
            }
            if j == 13 {
                assert(parameter_name(6).len() != parameter_name(13).len());
            }
            if j == 14 {
                assert(parameter_name(6).len() != parameter_name(14).len());
            }
            if j == 15 {
                assert(parameter_name(6).len() != parameter_name(15).len());
            }
            if j == 16 {
                assert(parameter_name(6).len() != parameter_name(16).len());
            }
            if j == 17 {
                assert(parameter_name(6).len() != parameter_name(17).len());
            }
        }
        if i == 7 {
            if j == 8 {
                assert(parameter_name(7).len() != parameter_name(8).len());
            }
            if j == 9 {
                assert(parameter_name(7).len() != parameter_name(9).len());
            }
            if j == 10 {
                assert(parameter_name(7).len() != parameter_name(10).len());
            }
            if j == 11 {
                assert(parameter_name(7).len() != parameter_name(11).len());
            }
            if j == 12 {
                assert(parameter_name(7)[0] != parameter_name(12)[0]);
            }
            if j == 13 {
                assert(parameter_name(7).len() != parameter_name(13).len());
            }
            if j == 14 {
                assert(parameter_name(7).len() != parameter_name(14).len());
            }
            if j == 15 {
                assert(parameter_name(7).len() != parameter_name(15).len());
            }
            if j == 16 {
                assert(parameter_name(7).len() != parameter_name(16).len());
            }
            if j == 17 {
                assert(parameter_name(7).len() != parameter_name(17).len());
            }
        }
        if i == 8 {
            if j == 9 {
                assert(parameter_name(8).len() != parameter_name(9).len());
            }
            if j == 10 {
                assert(parameter_name(8).len() != parameter_name(10).len());
            }
            if j == 11 {
                assert(parameter_name(8).len() != parameter_name(11).len());
            }
            if j == 12 {
                assert(parameter_name(8).len() != parameter_name(12).len());
            }
            if j == 13 {
                assert(parameter_name(8).len() != parameter_name(13).len());
            }
            if j == 14 {
                assert(parameter_name(8).len() != parameter_name(14).len());
            }
            if j == 15 {
                assert(parameter_name(8).len() != parameter_name(15).len());
            }
            if j == 16 {
                assert(parameter_name(8).len() != parameter_name(16).len());
            }
            if j == 17 {
                assert(parameter_name(8).len() != parameter_name(17).len());
            }
        }
        if i == 9 {
            if j == 10 {
                assert(parameter_name(9).len() != parameter_name(10).len());
            }
            if j == 11 {
                assert(parameter_name(9).len() != parameter_name(11).len());
            }
            if j == 12 {
                assert(parameter_name(9).len() != parameter_name(12).len());
            }
            if j == 13 {
                assert(parameter_name(9).len() != parameter_name(13).len());
            }
            if j == 14 {
                assert(parameter_name(9).len() != parameter_name(14).len());
            }
            if j == 15 {
                assert(parameter_name(9).len() != parameter_name(15).len());
            }
            if j == 16 {
                assert(parameter_name(9).len() != parameter_name(16).len());
            }
            if j == 17 {
                assert(parameter_name(9).len() != parameter_name(17).len());
            }
        }
        if i == 10 {
            if j == 11 {
                assert(parameter_name(10).len() != parameter_name(11).len());
            }
            if j == 12 {
                assert(parameter_name(10).len() != parameter_name(12).len());
            }
            if j == 13 {
                assert(parameter_name(10).len() != parameter_name(13).len());
            }
            if j == 14 {
                assert(parameter_name(10).len() != parameter_name(14).len());
            }
            if j == 15 {
                assert(parameter_name(10)[0] != parameter_name(15)[0]);
            }
            if j == 16 {
                assert(parameter_name(10).len() != parameter_name(16).len());
            }
            if j == 17 {
                assert(parameter_name(10)[0] != parameter_name(17)[0]);
            }
        }
        if i == 11 {
            if j == 12 {
                assert(parameter_name(11).len() != parameter_name(12).len());
            }
            if j == 13 {
                assert(parameter_name(11).len() != parameter_name(13).len());
            }
            if j == 14 {
                assert(parameter_name(11).len() != parameter_name(14).len());
            }
            if j == 15 {
                assert(parameter_name(11).len() != parameter_name(15).len());
            }
            if j == 16 {
                assert(parameter_name(11).len() != parameter_name(16).len());
            }
            if j == 17 {
                assert(parameter_name(11).len() != parameter_name(17).len());
            }
        }
        if i == 12 {
            if j == 13 {
                assert(parameter_name(12).len() != parameter_name(13).len());
            }
            if j == 14 {
                assert(parameter_name(12).len() != parameter_name(14).len());
            }
            if j == 15 {
                assert(parameter_name(12).len() != parameter_name(15).len());
            }
            if j == 16 {
                assert(parameter_name(12).len() != parameter_name(16).len());
            }
            if j == 17 {
                assert(parameter_name(12).len() != parameter_name(17).len());
            }
        }
        if i == 13 {
            if j == 14 {
                assert(parameter_name(13).len() != parameter_name(14).len());
            }
            if j == 15 {
                assert(parameter_name(13).len() != parameter_name(15).len());
            }
            if j == 16 {
                assert(parameter_name(13).len() != parameter_name(16).len());
            }
            if j == 17 {
                assert(parameter_name(13).len() != parameter_name(17).len());
            }
        }
        if i == 14 {
            if j == 15 {
                assert(parameter_name(14).len() != parameter_name(15).len());
            }
            if j == 16 {
                assert(parameter_name(14)[0] != parameter_name(16)[0]);
            }
            if j == 17 {
                assert(parameter_name(14).len() != parameter_name(17).len());
            }
        }
        if i == 15 {
            if j == 16 {
                assert(parameter_name(15).len() != parameter_name(16).len());
            }
            if j == 17 {
                assert(parameter_name(15)[0] != parameter_name(17)[0]);
            }
        }
        if i == 16 {
            if j == 17 {
                assert(parameter_name(16).len() != parameter_name(17).len());
            }
        }
        if i == 17 {
        }
    }
}

/// Name of parameter `index`.
pub fn get_parameter_name(index: i32) -> (r: String)
    ensures
        r@ == parameter_name(index),
{
    match index {
        0 => "osc1 WT pos".to_string(),
        1 => "osc1 volume".to_string(),
        2 => "osc1 detune".to_string(),
        3 => "osc1 octave".to_string(),
        4 => "osc2 WT pos".to_string(),
        5 => "osc2 volume".to_string(),
        6 => "osc2 detune".to_string(),
        7 => "osc1 octave".to_string(),
        8 => "cutoff".to_string(),
        9 => "res".to_string(),
        10 => "filter order".to_string(),
        11 => "drive".to_string(),
        12 => "attack time".to_string(),
        13 => "decay time".to_string(),
        14 => "sustain level".to_string(),
        15 => "release time".to_string(),
        16 => "cutoff amount".to_string(),
        17 => "grain unison".to_string(),
        _ => "".to_string(),
    }
}

/// Unit label of parameter `index`.
pub fn get_parameter_label(index: i32) -> (r: String)
    ensures
        r@ == parameter_label(index),
{
    match index {
        0 => "".to_string(),
        1 => "%".to_string(),
        2 => "".to_string(),
        3 => "".to_string(),
        4 => "".to_string(),
        5 => "%".to_string(),
        6 => "".to_string(),
        7 => "".to_string(),
        8 => "Hz".to_string(),
        9 => "%".to_string(),
        10 => "poles".to_string(),
        11 => "%".to_string(),
        12 => "ms".to_string(),
        13 => "ms".to_string(),
        14 => "%".to_string(),
        15 => "ms".to_string(),
        16 => "%".to_string(),
        17 => "voices".to_string(),
        _ => "".to_string(),
    }
}

} // verus!
