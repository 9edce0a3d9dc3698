use osix_firmware::config::printer::KinematicsKind;
use osix_firmware::config::section_text;
use osix_firmware::config::temperature::ThermistorModel;
use osix_firmware::error::AppError;
use osix_firmware::printer_state::firmware_info;
use osix_firmware::storage::{file_path, settings_files, temporary_name};

#[test]
fn blank_sections_fall_back_to_defaults() {
    assert_eq!(section_text(None), None);
    assert_eq!(section_text(Some("  \n\t")), None);
    assert_eq!(section_text(Some("")), None);
    assert_eq!(section_text(Some("a = 1")), Some("a = 1"));
}

#[test]
fn configuration_defaults() {
    assert_eq!(KinematicsKind::default(), KinematicsKind::Cartesian);
    assert_eq!(ThermistorModel::default(), ThermistorModel::Ntc100K3950);
}

#[test]
fn settings_files_and_paths() {
    assert_eq!(settings_files(), ["printer.toml", "motion.toml", "network.toml", "temperature.toml"]);
    assert_eq!(file_path("/settings", "motion.toml"), "/settings/motion.toml");
    assert_eq!(temporary_name("motion.toml"), "motion.toml.tmp");
}

#[test]
fn error_texts_name_the_subsystem() {
    assert_eq!(AppError::board("x".to_string()).to_string(), "ошибка платы: x");
    assert_eq!(
        AppError::Esp { code: -259, message: "ESP_ERR".to_string() }.to_string(),
        "ошибка ESP-IDF (код -259): ESP_ERR"
    );
    assert_eq!(
        AppError::motor_driver("tmc2209", "DIR pin".to_string()).to_string(),
        "ошибка драйвера двигателя 'tmc2209': DIR pin"
    );
    assert_eq!(
        AppError::GCode { line: 12, reason: "r".to_string() }.to_string(),
        "ошибка G-Code (строка 12): r"
    );
    assert_eq!(
        AppError::config("network.toml".to_string(), "bad".to_string()).to_string(),
        "ошибка конфигурации 'network.toml': bad"
    );
    assert_eq!(AppError::Io("e".to_string()).to_string(), "ошибка ввода-вывода: e");
    assert_eq!(
        AppError::HardwareTimeout("t".to_string()).to_string(),
        "оборудование не отвечает: t"
    );
    assert_eq!(
        AppError::Esp { code: i32::MIN, message: String::new() }.to_string(),
        "ошибка ESP-IDF (код -2147483648): "
    );
}

#[test]
fn firmware_identification() {
    let info = firmware_info("cartesian", 1);
    assert_eq!(info.firmware_name, "OSIX Firmware");
    assert_eq!(info.firmware_version, "0.1.0");
    assert_eq!(info.kinematics_name, "cartesian");
    assert_eq!(info.extruder_count, 1);
}
