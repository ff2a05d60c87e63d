use aeropress_timer::{instructions, CompletionAction, Msg, Step, StepTable, TIMER_SPEED};

fn plain(at: u32, on_click: CompletionAction) -> Step {
    Step { display_at_count: at, instruction: "do", next_instruction: "wait", on_click }
}

#[test]
fn table_of_no_steps_is_refused() {
    assert!(StepTable::new(Vec::new()).is_none());
}

#[test]
fn table_must_end_with_finish() {
    assert!(StepTable::new(vec![plain(0, CompletionAction::Advance)]).is_none());
    assert!(StepTable::new(vec![plain(0, CompletionAction::StartTimer)]).is_none());
    assert!(StepTable::new(vec![
        plain(0, CompletionAction::Finish),
        plain(3, CompletionAction::Advance),
    ])
    .is_none());
    assert!(StepTable::new(vec![
        plain(0, CompletionAction::Advance),
        plain(0, CompletionAction::StartTimer),
        plain(15, CompletionAction::Advance),
    ])
    .is_none());
}

#[test]
fn table_must_not_go_down_in_thresholds() {
    assert!(StepTable::new(vec![
        plain(5, CompletionAction::Advance),
        plain(4, CompletionAction::Finish),
    ])
    .is_none());
    assert!(StepTable::new(vec![
        plain(0, CompletionAction::Advance),
        plain(7, CompletionAction::Advance),
        plain(6, CompletionAction::Advance),
        plain(9, CompletionAction::Finish),
    ])
    .is_none());
}

#[test]
fn table_keeps_steps_in_order() {
    let steps = vec![
        Step {
            display_at_count: 0,
            instruction: "A",
            next_instruction: "",
            on_click: CompletionAction::Advance,
        },
        Step {
            display_at_count: 0,
            instruction: "B",
            next_instruction: "soon",
            on_click: CompletionAction::StartTimer,
        },
        Step {
            display_at_count: 15,
            instruction: "C",
            next_instruction: "",
            on_click: CompletionAction::Finish,
        },
    ];
    let table = StepTable::new(steps.clone()).expect("a procedure");
    assert_eq!(table.len(), 3);
    assert_eq!(table.get(0), Some(steps[0]));
    assert_eq!(table.get(1), Some(steps[1]));
    assert_eq!(table.get(2), Some(steps[2]));
    assert_eq!(table.last(), steps[2]);
}

#[test]
fn lookup_past_the_end_is_absent() {
    let table = StepTable::new(vec![
        plain(0, CompletionAction::Advance),
        plain(1, CompletionAction::Finish),
    ])
    .expect("a procedure");
    assert_eq!(table.get(2), None);
    assert_eq!(table.get(3), None);
    assert_eq!(table.get(usize::MAX), None);
    assert!(table.get(1).is_some());
}

#[test]
fn equal_thresholds_are_in_order() {
    let table = StepTable::new(vec![
        plain(4, CompletionAction::Advance),
        plain(4, CompletionAction::Advance),
        plain(4, CompletionAction::Finish),
    ]);
    assert_eq!(table.map(|t| t.len()), Some(3));
}

#[test]
fn brewing_instructions_are_the_eight_steps() {
    let table = instructions();
    assert_eq!(table.len(), 8);
    let thresholds: Vec<u32> =
        (0..8).map(|i| table.get(i).expect("a step").display_at_count).collect();
    assert_eq!(thresholds, vec![0, 0, 0, 15, 60, 80, 90, 105]);
    let actions: Vec<CompletionAction> =
        (0..8).map(|i| table.get(i).expect("a step").on_click).collect();
    assert_eq!(
        actions,
        vec![
            CompletionAction::Advance,
            CompletionAction::Advance,
            CompletionAction::StartTimer,
            CompletionAction::Advance,
            CompletionAction::Advance,
            CompletionAction::Advance,
            CompletionAction::Advance,
            CompletionAction::Finish,
        ]
    );
    assert_eq!(
        table.get(2).expect("a step").instruction,
        "Start timer and swirl your AeroPress around for 15 seconds."
    );
    assert_eq!(table.get(2).expect("a step").next_instruction, "");
    assert_eq!(
        table.get(3),
        Some(Step {
            display_at_count: 15,
            instruction: "Fill up with the remaining amount of water.",
            next_instruction: "Wait until 60 seconds, then put the cap on.",
            on_click: CompletionAction::Advance,
        })
    );
    assert_eq!(
        table.last(),
        Step {
            display_at_count: 105,
            instruction: "Done! Enjoy your coffee.",
            next_instruction: "",
            on_click: CompletionAction::Finish,
        }
    );
    assert_eq!(table.get(8), None);
}

#[test]
fn clock_ticks_once_a_second() {
    assert_eq!(TIMER_SPEED, 1000);
}

#[test]
fn completion_action_names_its_button() {
    assert_eq!(CompletionAction::Advance.button(), Some(Msg::IncrementStep));
    assert_eq!(CompletionAction::StartTimer.button(), Some(Msg::StartTimer));
    assert_eq!(CompletionAction::Finish.button(), None);
}
