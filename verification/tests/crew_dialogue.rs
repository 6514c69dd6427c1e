use symtropy_evidence::dialogue::{bottleneck_to_dialogue, str_contains, str_equals, NeedFlags};

fn calm() -> Option<NeedFlags> {
    Some(NeedFlags { burnout: false, lonely: false, disengaged: false })
}

#[test]
fn crew_lines_follow_the_bottleneck() {
    assert_eq!(
        bottleneck_to_dialogue("phi", 0, "Kael", calm()),
        "Kael: \"If we don't fix the power loops, the consciousness coupling will collapse.\""
    );
    assert_eq!(
        bottleneck_to_dialogue("embodiment", 2, "Medic Mira", None),
        "Medic Mira: \"My hands are shaking... is this real feedback or phantom trauma?\""
    );
    assert_eq!(
        bottleneck_to_dialogue("broadcast", 1, "Soren", calm()),
        "Soren: \"I need to transmit this signal before the null ecology intercepts it.\""
    );
    assert_eq!(
        bottleneck_to_dialogue("embodiment", 1, "PR-4", None),
        "PR-4: \"Chassis integrity at 98%. Ready for hardware maintenance task.\""
    );
    assert_eq!(
        bottleneck_to_dialogue("synchrony", 0, "Jack", calm()),
        "Jack: \"Secure the perimeter. I'll cover the pump area while you repair.\""
    );
}

#[test]
fn crew_burnout_comes_before_loneliness_and_bottleneck() {
    let both = Some(NeedFlags { burnout: true, lonely: true, disengaged: true });
    assert_eq!(
        bottleneck_to_dialogue("phi", 2, "Nadia", both),
        "Nadia: \"The trade-offs are too steep. We are sacrificing too much for this colony!\""
    );
    let lonely = Some(NeedFlags { burnout: false, lonely: true, disengaged: false });
    assert_eq!(
        bottleneck_to_dialogue("phi", 2, "Leo", lonely),
        "Leo: \"Why is everyone ignoring me? I just want to help.\""
    );
}

#[test]
fn pr4_has_no_lonely_line() {
    let lonely = Some(NeedFlags { burnout: false, lonely: true, disengaged: false });
    assert_eq!(
        bottleneck_to_dialogue("working_memory", 0, "PR-4", lonely),
        "PR-4: \"Buffer overflow: memory allocation failed. Repeating task list.\""
    );
}

#[test]
fn first_crew_name_in_order_wins() {
    assert_eq!(
        bottleneck_to_dialogue("knowledge", 0, "Leo and Kael", None),
        "Leo and Kael: \"Checking the junction status. We need more voltage to keep the system online.\""
    );
}

#[test]
fn unknown_speakers_use_needs_then_level_tiers() {
    let disengaged = Some(NeedFlags { burnout: false, lonely: false, disengaged: true });
    assert_eq!(bottleneck_to_dialogue("phi", 2, "Ada", disengaged), "Ada: \"...\"");
    assert_eq!(
        bottleneck_to_dialogue("phi", 2, "Ada", Some(NeedFlags { burnout: true, lonely: false, disengaged: true })),
        "Ada: \"I can't keep this up... everything hurts.\""
    );
    assert_eq!(
        bottleneck_to_dialogue("phi", 1, "Ada", Some(NeedFlags { burnout: false, lonely: true, disengaged: false })),
        "Ada: \"Does anyone even know I'm here?\""
    );
    assert_eq!(bottleneck_to_dialogue("phi", 2, "Ada", None), "Ada: \"I feel... integrated. Whole.\"");
    assert_eq!(bottleneck_to_dialogue("synchrony", 1, "Ada", calm()), "Ada: \"We need to be together. Closer.\"");
    assert_eq!(bottleneck_to_dialogue("broadcast", 0, "Ada", None), "Ada: \"HELP— I can't— nobody hears—\"");
    assert_eq!(bottleneck_to_dialogue("synchrony", 0, "Ada", None), "Ada: \"...please...\"");
    assert_eq!(bottleneck_to_dialogue("recurrence", 2, "Ada", None), "Ada: \"Something is shifting inside me.\"");
}

#[test]
fn substring_and_equality_helpers() {
    assert!(str_contains("Chief Kael", "Kael"));
    assert!(str_contains("abc", ""));
    assert!(!str_contains("Kae", "Kael"));
    assert!(!str_contains("Mira", "mira"));
    assert!(str_equals("phi", "phi"));
    assert!(!str_equals("phi", "phi "));
}
