use gcode_processor::config::{
    GcodeProcessorConfig, GcodeProcessorStorageConfig, UartPackageConfig, UartPortConfig,
};
use gcode_processor::lines::{is_gcode_line, select_gcode_lines};

#[test]
fn gcode_lines_are_selected_in_order() {
    let lines: Vec<String> = vec!["; comment", "G00 X1", "M3 S100", "g1 y2", "G90", "", "XG1"]
        .into_iter()
        .map(String::from)
        .collect();
    assert_eq!(select_gcode_lines(&lines), vec!["G00 X1", "g1 y2", "G90"]);
}

#[test]
fn gcode_word_needs_one_to_three_digits() {
    assert!(is_gcode_line("G1"));
    assert!(is_gcode_line("N5 G123 X1"));
    assert!(!is_gcode_line("G1234"));
    assert!(!is_gcode_line("G"));
    assert!(!is_gcode_line("M30"));
}

#[test]
fn config_sanity() {
    let test_cfg = GcodeProcessorConfig {
        uart_port: UartPortConfig {
            port_name: "/dev/ttyACM0".into(),
            baud: 115200,
            response_timeout_s: 60,
        },
        uart_package: UartPackageConfig { preamble: "MSG_PREAMBLE".into(), size_field_length: 4 },
        state_storage: GcodeProcessorStorageConfig {
            file_path: "/usr/app/src/target/state.json".into(),
        },
    };
    let format = test_cfg.uart_package.frame_format().unwrap();
    assert_eq!(format.preamble, b"MSG_PREAMBLE".to_vec());
    assert_eq!(format.size_field_length, 4);
    assert_eq!(format.header_len(), 16);
}
