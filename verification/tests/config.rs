use embassy_esp32c3::config::Config;
use embassy_esp32c3::interrupt::Priority;

#[test]
fn default_config_uses_priority_1() {
    let c = Config::default();
    assert_eq!(c.time_interrupt_priority, Priority::Priority1);
}
