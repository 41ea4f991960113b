//! Validation rules: identifier shape, step bounds, branch checks.
use aoe4_overlay::model::{BuildOrder, BuildOrderBranch, BuildOrderStep, MAX_BUILD_ORDER_STEPS};
use aoe4_overlay::validate::{validate_build_order, validate_build_order_id};


fn create_valid_build_order() -> BuildOrder {
    BuildOrder {
        id: "test-order".to_string(),
        name: "Test Order".to_string(),
        civilization: "English".to_string(),
        description: "A test build order".to_string(),
        difficulty: "Easy".to_string(),
        steps: vec![BuildOrderStep {
            id: "step-1".to_string(),
            description: "First step".to_string(),
            timing: Some("0:00".to_string()),
            resources: None,
        }],
        enabled: true,
        pinned: false,
        favorite: false,
        branches: None,
    }
}

fn make_steps(n: usize) -> Vec<BuildOrderStep> {
    (0..n)
        .map(|i| BuildOrderStep {
            id: format!("step-{}", i),
            description: format!("Step {}", i),
            timing: None,
            resources: None,
        })
        .collect()
}

#[test]
fn config_test_validate_build_order_id() {
    assert!(validate_build_order_id("valid-id_123").is_ok());
    assert!(validate_build_order_id("").is_err());
    assert!(validate_build_order_id("bad id").is_err());
    let long_id = "a".repeat(65);
    assert!(validate_build_order_id(&long_id).is_err());
}

#[test]
fn config_test_validate_build_order_id_exact_max_length() {
    let exact_max = "a".repeat(64);
    assert!(validate_build_order_id(&exact_max).is_ok());
}

#[test]
fn config_test_validate_build_order_id_single_char() {
    assert!(validate_build_order_id("a").is_ok());
    assert!(validate_build_order_id("1").is_ok());
    assert!(validate_build_order_id("-").is_ok());
    assert!(validate_build_order_id("_").is_ok());
}

#[test]
fn config_test_validate_build_order_id_special_chars_rejected() {
    assert!(validate_build_order_id("test@id").is_err());
    assert!(validate_build_order_id("test#id").is_err());
    assert!(validate_build_order_id("test.id").is_err());
    assert!(validate_build_order_id("test/id").is_err());
    assert!(validate_build_order_id("test\\id").is_err());
    assert!(validate_build_order_id("test:id").is_err());
}

#[test]
fn config_test_validate_build_order_id_unicode_rejected() {
    assert!(validate_build_order_id("テスト").is_err());
    assert!(validate_build_order_id("test-émoji").is_err());
    assert!(validate_build_order_id("test🎮").is_err());
}

#[test]
fn config_test_validate_build_order_id_whitespace() {
    assert!(validate_build_order_id(" ").is_err());
    assert!(validate_build_order_id("\t").is_err());
    assert!(validate_build_order_id("\n").is_err());
    assert!(validate_build_order_id("test id").is_err());
    assert!(validate_build_order_id(" test").is_err());
    assert!(validate_build_order_id("test ").is_err());
}

#[test]
fn config_test_validate_build_order_id_mixed_case() {
    assert!(validate_build_order_id("TestID").is_ok());
    assert!(validate_build_order_id("ALLCAPS").is_ok());
    assert!(validate_build_order_id("alllower").is_ok());
    assert!(validate_build_order_id("Mixed-Case_123").is_ok());
}

#[test]
fn config_test_validate_build_order_valid() {
    let order = create_valid_build_order();
    assert!(validate_build_order(&order).is_ok());
}

#[test]
fn config_test_validate_build_order_empty_steps() {
    let mut order = create_valid_build_order();
    order.steps = vec![];
    let result = validate_build_order(&order);
    assert!(result.is_err());
    assert!(result.unwrap_err().contains("at least one step"));
}

#[test]
fn config_test_validate_build_order_max_steps() {
    let mut order = create_valid_build_order();
    order.steps = make_steps(MAX_BUILD_ORDER_STEPS);
    assert!(validate_build_order(&order).is_ok());
}

#[test]
fn config_test_validate_build_order_exceeds_max_steps() {
    let mut order = create_valid_build_order();
    order.steps = make_steps(MAX_BUILD_ORDER_STEPS + 1);
    let result = validate_build_order(&order);
    assert!(result.is_err());
    assert!(result.unwrap_err().contains("exceeds maximum"));
}

#[test]
fn config_test_validate_build_order_step_empty_id() {
    let mut order = create_valid_build_order();
    order.steps[0].id = "".to_string();
    let result = validate_build_order(&order);
    assert!(result.is_err());
    assert!(result.unwrap_err().contains("missing an id"));
}

#[test]
fn config_test_validate_build_order_step_whitespace_id() {
    let mut order = create_valid_build_order();
    order.steps[0].id = "   ".to_string();
    let result = validate_build_order(&order);
    assert!(result.is_err());
    assert!(result.unwrap_err().contains("missing an id"));
}

#[test]
fn config_test_validate_build_order_step_empty_description() {
    let mut order = create_valid_build_order();
    order.steps[0].description = "".to_string();
    let result = validate_build_order(&order);
    assert!(result.is_err());
    assert!(result.unwrap_err().contains("missing a description"));
}

#[test]
fn config_test_validate_build_order_step_whitespace_description() {
    let mut order = create_valid_build_order();
    order.steps[0].description = "\t\n".to_string();
    let result = validate_build_order(&order);
    assert!(result.is_err());
    assert!(result.unwrap_err().contains("missing a description"));
}

#[test]
fn config_test_validate_build_order_invalid_id() {
    let mut order = create_valid_build_order();
    order.id = "invalid id with spaces".to_string();
    let result = validate_build_order(&order);
    assert!(result.is_err());
    assert!(result.unwrap_err().contains("only contain letters"));
}

#[test]
fn config_test_validate_build_order_with_branches() {
    let mut order = create_valid_build_order();
    order.branches = Some(vec![BuildOrderBranch {
        id: "branch-1".to_string(),
        name: "Branch One".to_string(),
        trigger: Some("Age up".to_string()),
        start_step_index: 0,
        steps: vec![BuildOrderStep {
            id: "branch-step-1".to_string(),
            description: "Branch step".to_string(),
            timing: None,
            resources: None,
        }],
    }]);
    assert!(validate_build_order(&order).is_ok());
}

#[test]
fn config_test_validate_build_order_branch_exceeds_max_steps() {
    let mut order = create_valid_build_order();
    order.branches = Some(vec![BuildOrderBranch {
        id: "branch-1".to_string(),
        name: "Big Branch".to_string(),
        trigger: None,
        start_step_index: 0,
        steps: make_steps(MAX_BUILD_ORDER_STEPS + 1),
    }]);
    let result = validate_build_order(&order);
    assert!(result.is_err());
    let err_msg = result.unwrap_err();
    assert!(err_msg.contains("Branch"));
    assert!(err_msg.contains("exceeds maximum"));
}

#[test]
fn config_test_validate_build_order_branch_empty_step_id() {
    let mut order = create_valid_build_order();
    order.branches = Some(vec![BuildOrderBranch {
        id: "branch-1".to_string(),
        name: "Test Branch".to_string(),
        trigger: None,
        start_step_index: 0,
        steps: vec![BuildOrderStep {
            id: "".to_string(),
            description: "Valid description".to_string(),
            timing: None,
            resources: None,
        }],
    }]);
    let result = validate_build_order(&order);
    assert!(result.is_err());
    let err_msg = result.unwrap_err();
    assert!(err_msg.contains("Branch"));
    assert!(err_msg.contains("missing an id"));
}

#[test]
fn config_test_validate_build_order_branch_empty_step_description() {
    let mut order = create_valid_build_order();
    order.branches = Some(vec![BuildOrderBranch {
        id: "branch-1".to_string(),
        name: "Test Branch".to_string(),
        trigger: None,
        start_step_index: 0,
        steps: vec![BuildOrderStep {
            id: "valid-id".to_string(),
            description: "".to_string(),
            timing: None,
            resources: None,
        }],
    }]);
    let result = validate_build_order(&order);
    assert!(result.is_err());
    assert!(result.unwrap_err().contains("missing a description"));
}

#[test]
fn config_test_validate_build_order_multiple_branches() {
    let mut order = create_valid_build_order();
    order.branches = Some(vec![
        BuildOrderBranch {
            id: "branch-1".to_string(),
            name: "Branch One".to_string(),
            trigger: Some("Feudal".to_string()),
            start_step_index: 0,
            steps: vec![BuildOrderStep {
                id: "b1-step".to_string(),
                description: "Branch 1 step".to_string(),
                timing: None,
                resources: None,
            }],
        },
        BuildOrderBranch {
            id: "branch-2".to_string(),
            name: "Branch Two".to_string(),
            trigger: Some("Castle".to_string()),
            start_step_index: 5,
            steps: vec![BuildOrderStep {
                id: "b2-step".to_string(),
                description: "Branch 2 step".to_string(),
                timing: None,
                resources: None,
            }],
        },
    ]);
    assert!(validate_build_order(&order).is_ok());
}

#[test]
fn config_test_validate_build_order_empty_branches_vec() {
    let mut order = create_valid_build_order();
    order.branches = Some(vec![]);
    assert!(validate_build_order(&order).is_ok());
}

#[test]
fn config_test_validate_build_order_step_index_in_error() {
    let mut order = create_valid_build_order();
    order.steps = vec![
        BuildOrderStep {
            id: "s1".to_string(),
            description: "First".to_string(),
            timing: None,
            resources: None,
        },
        BuildOrderStep {
            id: "".to_string(),
            description: "Second".to_string(),
            timing: None,
            resources: None,
        },
    ];
    let result = validate_build_order(&order);
    assert!(result.is_err());
    let err_msg = result.unwrap_err();
    assert!(err_msg.contains("Step 2"));
}

#[test]
fn config_test_build_order_any_civilization() {
    let mut order = create_valid_build_order();
    order.civilization = "CustomCiv".to_string();
    assert!(validate_build_order(&order).is_ok());
}

#[test]
fn config_test_build_order_any_difficulty() {
    let mut order = create_valid_build_order();
    order.difficulty = "Expert".to_string();
    assert!(validate_build_order(&order).is_ok());
}

#[test]
fn config_test_build_order_empty_name() {
    let mut order = create_valid_build_order();
    order.name = "".to_string();
    assert!(validate_build_order(&order).is_ok());
}

#[test]
fn config_test_build_order_step_long_description() {
    let mut order = create_valid_build_order();
    order.steps[0].description = "A".repeat(10000);
    assert!(validate_build_order(&order).is_ok());
}

#[test]
fn build_order_test_validate_build_order_id() {
    assert!(validate_build_order_id("valid-id_123").is_ok());
    assert!(validate_build_order_id("").is_err());
    assert!(validate_build_order_id("bad id").is_err());
    let long_id = "a".repeat(65);
    assert!(validate_build_order_id(&long_id).is_err());
}

#[test]
fn build_order_test_validate_build_order_id_exact_max_length() {
    let exact_max = "a".repeat(64);
    assert!(validate_build_order_id(&exact_max).is_ok());
}

#[test]
fn build_order_test_validate_build_order_id_single_char() {
    assert!(validate_build_order_id("a").is_ok());
    assert!(validate_build_order_id("1").is_ok());
    assert!(validate_build_order_id("-").is_ok());
    assert!(validate_build_order_id("_").is_ok());
}

#[test]
fn build_order_test_validate_build_order_id_special_chars_rejected() {
    assert!(validate_build_order_id("test@id").is_err());
    assert!(validate_build_order_id("test#id").is_err());
    assert!(validate_build_order_id("test.id").is_err());
    assert!(validate_build_order_id("test/id").is_err());
    assert!(validate_build_order_id("test\\id").is_err());
    assert!(validate_build_order_id("test:id").is_err());
}

#[test]
fn build_order_test_validate_build_order_id_unicode_rejected() {
    assert!(validate_build_order_id("テスト").is_err());
    assert!(validate_build_order_id("test-émoji").is_err());
    assert!(validate_build_order_id("test🎮").is_err());
}

#[test]
fn build_order_test_validate_build_order_id_whitespace() {
    assert!(validate_build_order_id(" ").is_err());
    assert!(validate_build_order_id("\t").is_err());
    assert!(validate_build_order_id("\n").is_err());
    assert!(validate_build_order_id("test id").is_err());
    assert!(validate_build_order_id(" test").is_err());
    assert!(validate_build_order_id("test ").is_err());
}

#[test]
fn build_order_test_validate_build_order_id_mixed_case() {
    assert!(validate_build_order_id("TestID").is_ok());
    assert!(validate_build_order_id("ALLCAPS").is_ok());
    assert!(validate_build_order_id("alllower").is_ok());
    assert!(validate_build_order_id("Mixed-Case_123").is_ok());
}

#[test]
fn build_order_test_validate_build_order_valid() {
    let order = create_valid_build_order();
    assert!(validate_build_order(&order).is_ok());
}

#[test]
fn build_order_test_validate_build_order_empty_steps() {
    let mut order = create_valid_build_order();
    order.steps = vec![];
    let result = validate_build_order(&order);
    assert!(result.is_err());
    assert!(result.unwrap_err().contains("at least one step"));
}

#[test]
fn build_order_test_validate_build_order_max_steps() {
    let mut order = create_valid_build_order();
    order.steps = make_steps(MAX_BUILD_ORDER_STEPS);
    assert!(validate_build_order(&order).is_ok());
}

#[test]
fn build_order_test_validate_build_order_exceeds_max_steps() {
    let mut order = create_valid_build_order();
    order.steps = make_steps(MAX_BUILD_ORDER_STEPS + 1);
    let result = validate_build_order(&order);
    assert!(result.is_err());
    assert!(result.unwrap_err().contains("exceeds maximum"));
}

#[test]
fn build_order_test_validate_build_order_step_empty_id() {
    let mut order = create_valid_build_order();
    order.steps[0].id = "".to_string();
    let result = validate_build_order(&order);
    assert!(result.is_err());
    assert!(result.unwrap_err().contains("missing an id"));
}

#[test]
fn build_order_test_validate_build_order_step_whitespace_id() {
    let mut order = create_valid_build_order();
    order.steps[0].id = "   ".to_string();
    let result = validate_build_order(&order);
    assert!(result.is_err());
    assert!(result.unwrap_err().contains("missing an id"));
}

#[test]
fn build_order_test_validate_build_order_step_empty_description() {
    let mut order = create_valid_build_order();
    order.steps[0].description = "".to_string();
    let result = validate_build_order(&order);
    assert!(result.is_err());
    assert!(result.unwrap_err().contains("missing a description"));
}

#[test]
fn build_order_test_validate_build_order_step_whitespace_description() {
    let mut order = create_valid_build_order();
    order.steps[0].description = "\t\n".to_string();
    let result = validate_build_order(&order);
    assert!(result.is_err());
    assert!(result.unwrap_err().contains("missing a description"));
}

#[test]
fn build_order_test_validate_build_order_invalid_id() {
    let mut order = create_valid_build_order();
    order.id = "invalid id with spaces".to_string();
    let result = validate_build_order(&order);
    assert!(result.is_err());
    assert!(result.unwrap_err().contains("only contain letters"));
}

#[test]
fn build_order_test_validate_build_order_with_branches() {
    let mut order = create_valid_build_order();
    order.branches = Some(vec![BuildOrderBranch {
        id: "branch-1".to_string(),
        name: "Branch One".to_string(),
        trigger: Some("Age up".to_string()),
        start_step_index: 0,
        steps: vec![BuildOrderStep {
            id: "branch-step-1".to_string(),
            description: "Branch step".to_string(),
            timing: None,
            resources: None,
        }],
    }]);
    assert!(validate_build_order(&order).is_ok());
}

#[test]
fn build_order_test_validate_build_order_branch_exceeds_max_steps() {
    let mut order = create_valid_build_order();
    order.branches = Some(vec![BuildOrderBranch {
        id: "branch-1".to_string(),
        name: "Big Branch".to_string(),
        trigger: None,
        start_step_index: 0,
        steps: make_steps(MAX_BUILD_ORDER_STEPS + 1),
    }]);
    let result = validate_build_order(&order);
    assert!(result.is_err());
    let err_msg = result.unwrap_err();
    assert!(err_msg.contains("Branch"));
    assert!(err_msg.contains("exceeds maximum"));
}

#[test]
fn build_order_test_validate_build_order_branch_empty_step_id() {
    let mut order = create_valid_build_order();
    order.branches = Some(vec![BuildOrderBranch {
        id: "branch-1".to_string(),
        name: "Test Branch".to_string(),
        trigger: None,
        start_step_index: 0,
        steps: vec![BuildOrderStep {
            id: "".to_string(),
            description: "Valid description".to_string(),
            timing: None,
            resources: None,
        }],
    }]);
    let result = validate_build_order(&order);
    assert!(result.is_err());
    let err_msg = result.unwrap_err();
    assert!(err_msg.contains("Branch"));
    assert!(err_msg.contains("missing an id"));
}

#[test]
fn build_order_test_validate_build_order_branch_empty_step_description() {
    let mut order = create_valid_build_order();
    order.branches = Some(vec![BuildOrderBranch {
        id: "branch-1".to_string(),
        name: "Test Branch".to_string(),
        trigger: None,
        start_step_index: 0,
        steps: vec![BuildOrderStep {
            id: "valid-id".to_string(),
            description: "".to_string(),
            timing: None,
            resources: None,
        }],
    }]);
    let result = validate_build_order(&order);
    assert!(result.is_err());
    assert!(result.unwrap_err().contains("missing a description"));
}

#[test]
fn build_order_test_validate_build_order_multiple_branches() {
    let mut order = create_valid_build_order();
    order.branches = Some(vec![
        BuildOrderBranch {
            id: "branch-1".to_string(),
            name: "Branch One".to_string(),
            trigger: Some("Feudal".to_string()),
            start_step_index: 0,
            steps: vec![BuildOrderStep {
                id: "b1-step".to_string(),
                description: "Branch 1 step".to_string(),
                timing: None,
                resources: None,
            }],
        },
        BuildOrderBranch {
            id: "branch-2".to_string(),
            name: "Branch Two".to_string(),
            trigger: Some("Castle".to_string()),
            start_step_index: 5,
            steps: vec![BuildOrderStep {
                id: "b2-step".to_string(),
                description: "Branch 2 step".to_string(),
                timing: None,
                resources: None,
            }],
        },
    ]);
    assert!(validate_build_order(&order).is_ok());
}

#[test]
fn build_order_test_validate_build_order_empty_branches_vec() {
    let mut order = create_valid_build_order();
    order.branches = Some(vec![]);
    assert!(validate_build_order(&order).is_ok());
}

#[test]
fn build_order_test_validate_build_order_step_index_in_error() {
    let mut order = create_valid_build_order();
    order.steps = vec![
        BuildOrderStep {
            id: "s1".to_string(),
            description: "First".to_string(),
            timing: None,
            resources: None,
        },
        BuildOrderStep {
            id: "".to_string(),
            description: "Second".to_string(),
            timing: None,
            resources: None,
        },
    ];
    let result = validate_build_order(&order);
    assert!(result.is_err());
    let err_msg = result.unwrap_err();
    assert!(err_msg.contains("Step 2"));
}

#[test]
fn build_order_test_build_order_any_civilization() {
    let mut order = create_valid_build_order();
    order.civilization = "CustomCiv".to_string();
    assert!(validate_build_order(&order).is_ok());
}

#[test]
fn build_order_test_build_order_any_difficulty() {
    let mut order = create_valid_build_order();
    order.difficulty = "Expert".to_string();
    assert!(validate_build_order(&order).is_ok());
}

#[test]
fn build_order_test_build_order_empty_name() {
    let mut order = create_valid_build_order();
    order.name = "".to_string();
    assert!(validate_build_order(&order).is_ok());
}

#[test]
fn build_order_test_build_order_step_long_description() {
    let mut order = create_valid_build_order();
    order.steps[0].description = "A".repeat(10000);
    assert!(validate_build_order(&order).is_ok());
}

#[test]
fn error_messages_are_exact() {
    // The texts are surfaced verbatim to the user, so they are pinned.
    assert_eq!(
        validate_build_order_id("").unwrap_err(),
        "Build order id is required"
    );
    assert_eq!(
        validate_build_order_id(&"a".repeat(65)).unwrap_err(),
        "Build order id exceeds max length of 64 characters"
    );
    assert_eq!(
        validate_build_order_id("a b").unwrap_err(),
        "Build order id may only contain letters, numbers, '-' or '_'"
    );

    let mut order = create_valid_build_order();
    order.steps = vec![];
    assert_eq!(
        validate_build_order(&order).unwrap_err(),
        "Build order must contain at least one step"
    );

    order.steps = make_steps(201);
    assert_eq!(
        validate_build_order(&order).unwrap_err(),
        "Build order exceeds maximum of 200 steps (has 201)"
    );

    order.steps = make_steps(2);
    order.steps[1].id = " ".to_string();
    assert_eq!(
        validate_build_order(&order).unwrap_err(),
        "Step 2 is missing an id"
    );
    order.steps[1].id = "ok".to_string();
    order.steps[1].description = "".to_string();
    assert_eq!(
        validate_build_order(&order).unwrap_err(),
        "Step 2 is missing a description"
    );
}

#[test]
fn branch_error_messages_are_exact() {
    let mut order = create_valid_build_order();
    order.branches = Some(vec![BuildOrderBranch {
        id: "b1".to_string(),
        name: "Sneaky".to_string(),
        trigger: None,
        start_step_index: 0,
        steps: make_steps(201),
    }]);
    assert_eq!(
        validate_build_order(&order).unwrap_err(),
        "Branch \"Sneaky\" exceeds maximum of 200 steps (has 201)"
    );

    order.branches = Some(vec![BuildOrderBranch {
        id: "b1".to_string(),
        name: "Sneaky".to_string(),
        trigger: None,
        start_step_index: 0,
        steps: vec![
            BuildOrderStep {
                id: "ok".to_string(),
                description: "fine".to_string(),
                timing: None,
                resources: None,
            },
            BuildOrderStep {
                id: "\t".to_string(),
                description: "fine".to_string(),
                timing: None,
                resources: None,
            },
        ],
    }]);
    assert_eq!(
        validate_build_order(&order).unwrap_err(),
        "Branch Sneaky step 2 is missing an id"
    );
}

#[test]
fn branch_checks_run_after_all_top_level_steps() {
    // A blank top-level step is reported before any branch problem.
    let mut order = create_valid_build_order();
    order.steps[0].id = " ".to_string();
    order.branches = Some(vec![BuildOrderBranch {
        id: "b1".to_string(),
        name: "B".to_string(),
        trigger: None,
        start_step_index: 0,
        steps: make_steps(201),
    }]);
    assert_eq!(
        validate_build_order(&order).unwrap_err(),
        "Step 1 is missing an id"
    );
}

#[test]
fn identifier_is_checked_before_steps() {
    let mut order = create_valid_build_order();
    order.id = "".to_string();
    order.steps = vec![];
    assert_eq!(
        validate_build_order(&order).unwrap_err(),
        "Build order id is required"
    );
}

#[test]
fn max_steps_boundary_with_branch_at_bound() {
    let mut order = create_valid_build_order();
    order.steps = make_steps(200);
    order.branches = Some(vec![BuildOrderBranch {
        id: "b1".to_string(),
        name: "B".to_string(),
        trigger: None,
        start_step_index: 0,
        steps: make_steps(200),
    }]);
    assert!(validate_build_order(&order).is_ok());
}

#[test]
fn validate_build_order_branch_empty_steps() {
    // The 1..=200 step bound applies to every branch exactly as to the
    // top-level steps: a branch with no steps is rejected, named.
    let mut order = create_valid_build_order();
    order.branches = Some(vec![BuildOrderBranch {
        id: "branch-1".to_string(),
        name: "Opening".to_string(),
        trigger: None,
        start_step_index: 0,
        steps: vec![],
    }]);
    let result = validate_build_order(&order);
    assert!(result.is_err());
    assert_eq!(
        result.unwrap_err(),
        "Branch \"Opening\" must contain at least one step"
    );
}

#[test]
fn validate_build_order_second_branch_empty_steps() {
    // A sound earlier branch does not mask a later empty one.
    let mut order = create_valid_build_order();
    order.branches = Some(vec![
        BuildOrderBranch {
            id: "b1".to_string(),
            name: "First".to_string(),
            trigger: None,
            start_step_index: 0,
            steps: vec![BuildOrderStep {
                id: "s".to_string(),
                description: "fine".to_string(),
                timing: None,
                resources: None,
            }],
        },
        BuildOrderBranch {
            id: "b2".to_string(),
            name: "Second".to_string(),
            trigger: None,
            start_step_index: 0,
            steps: vec![],
        },
    ]);
    assert_eq!(
        validate_build_order(&order).unwrap_err(),
        "Branch \"Second\" must contain at least one step"
    );
}

#[test]
fn validate_build_order_branch_single_step_accepted() {
    // One step is the branch bound's lower edge, and is accepted.
    let mut order = create_valid_build_order();
    order.branches = Some(vec![BuildOrderBranch {
        id: "b1".to_string(),
        name: "Edge".to_string(),
        trigger: None,
        start_step_index: 0,
        steps: make_steps(1),
    }]);
    assert!(validate_build_order(&order).is_ok());
}
