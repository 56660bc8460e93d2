use chronicle_builder::startup::{main_window_label, plan_startup, window_title, StartupPlan};

#[test]
fn label_is_main() {
    assert_eq!(main_window_label(), "main");
}

#[test]
fn title_is_fixed() {
    assert_eq!(window_title(), "Chronicle Builder - Your Story Workspace");
}

#[test]
fn found_window_is_titled_in_release() {
    assert_eq!(
        plan_startup(true, false),
        StartupPlan::Configure {
            title: "Chronicle Builder - Your Story Workspace".to_string(),
            open_devtools: false,
        }
    );
}

#[test]
fn found_window_opens_devtools_in_debug() {
    assert_eq!(
        plan_startup(true, true),
        StartupPlan::Configure {
            title: "Chronicle Builder - Your Story Workspace".to_string(),
            open_devtools: true,
        }
    );
}

#[test]
fn missing_window_aborts() {
    assert_eq!(plan_startup(false, false), StartupPlan::Abort);
    assert_eq!(plan_startup(false, true), StartupPlan::Abort);
}

#[test]
fn startup_has_two_outcomes() {
    for found in [false, true] {
        for debug in [false, true] {
            match plan_startup(found, debug) {
                StartupPlan::Configure { title, open_devtools } => {
                    assert!(found);
                    assert_eq!(title, window_title());
                    assert_eq!(open_devtools, debug);
                }
                StartupPlan::Abort => assert!(!found),
            }
        }
    }
}
