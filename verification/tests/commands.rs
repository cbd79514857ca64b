use mirage::{open_failure_message, write_failure_message};
use mirage::{Command, ImageOp, Plan, RotationOp};

#[test]
fn test_command_debug_formatting() {
    let blur_cmd = Command::Blur {
        infile: "input.jpg".to_string(),
        outfile: "output.jpg".to_string(),
        percent: 50,
    };
    let debug_str = format!("{:?}", blur_cmd);

    assert!(debug_str.contains("Blur"), "Debug output should contain command name");
    assert!(debug_str.contains("input.jpg"), "Debug output should contain input filename");
    assert!(debug_str.contains("50"), "Debug output should contain percent value");
}

#[test]
fn test_error_handling_context() {
    let test_file = "nonexistent_file.jpg";
    let error_msg = open_failure_message(test_file);

    assert!(
        error_msg.contains("nonexistent_file.jpg"),
        "Error message should contain filename"
    );
    assert!(
        error_msg.starts_with("Failed to open"),
        "Error message should have correct prefix"
    );
}

#[test]
fn test_write_failure_message_exact() {
    assert_eq!(write_failure_message("out.png"), "Failed writing out.png.");
    assert_eq!(open_failure_message("in.png"), "Failed to open in.png");
}

#[test]
fn test_plan_maps_transforms() {
    let plan = Command::Blur {
        infile: "a.png".to_string(),
        outfile: "b.png".to_string(),
        percent: 50,
    }
    .plan();
    assert_eq!(
        plan,
        Plan::Transform {
            infile: "a.png".to_string(),
            outfile: "b.png".to_string(),
            op: ImageOp::Blur { percent: 50 },
        }
    );

    let plan = Command::Crop {
        infile: "a.png".to_string(),
        outfile: "b.png".to_string(),
        x: 1,
        y: 2,
        width: 3,
        height: 4,
    }
    .plan();
    assert_eq!(
        plan,
        Plan::Transform {
            infile: "a.png".to_string(),
            outfile: "b.png".to_string(),
            op: ImageOp::Crop { x: 1, y: 2, width: 3, height: 4 },
        }
    );

    let plan = Command::Fractal { outfile: "f.png".to_string(), width: 100, height: 200 }.plan();
    assert_eq!(plan, Plan::Fractal { outfile: "f.png".to_string(), width: 100, height: 200 });

    let plan = Command::Generate { outfile: "g.png".to_string(), value: 255 }.plan();
    assert_eq!(plan, Plan::Generate { outfile: "g.png".to_string(), value: 255 });
}

#[test]
fn test_rotation_for_turns() {
    assert_eq!(mirage::command::rotation_for(90), Some(RotationOp::Quarter));
    assert_eq!(mirage::command::rotation_for(180), Some(RotationOp::Half));
    // 270 degrees maps to a half turn, not three quarter turns.
    assert_eq!(mirage::command::rotation_for(270), Some(RotationOp::Half));
    assert_eq!(mirage::command::rotation_for(45), None);
    assert_eq!(mirage::command::rotation_for(360), None);
}
