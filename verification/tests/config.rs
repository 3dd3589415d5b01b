use serial_session::config::{
    port_config, DataBits, FlowControl, Parity, PortConfig, StopBits, FALLBACK_TIMEOUT_MS,
};

fn with_defaults(data_bits: u8, parity: u8, stop_bits: u8) -> PortConfig {
    port_config(9600, data_bits, parity, stop_bits, 0, 0, 0, 0)
}

#[test]
fn data_bits_codes() {
    assert_eq!(with_defaults(5, 0, 1).data_bits, DataBits::Five);
    assert_eq!(with_defaults(6, 0, 1).data_bits, DataBits::Six);
    assert_eq!(with_defaults(7, 0, 1).data_bits, DataBits::Seven);
    assert_eq!(with_defaults(8, 0, 1).data_bits, DataBits::Eight);
}

#[test]
fn unknown_data_bits_code_selects_eight() {
    assert_eq!(with_defaults(0, 0, 1).data_bits, DataBits::Eight);
    assert_eq!(with_defaults(4, 0, 1).data_bits, DataBits::Eight);
    assert_eq!(with_defaults(9, 0, 1).data_bits, DataBits::Eight);
    assert_eq!(with_defaults(255, 0, 1).data_bits, DataBits::Eight);
}

#[test]
fn parity_codes() {
    assert_eq!(with_defaults(8, 0, 1).parity, Parity::Off);
    assert_eq!(with_defaults(8, 1, 1).parity, Parity::Odd);
    assert_eq!(with_defaults(8, 2, 1).parity, Parity::Even);
    assert_eq!(with_defaults(8, 3, 1).parity, Parity::Off);
    assert_eq!(with_defaults(8, 255, 1).parity, Parity::Off);
}

#[test]
fn stop_bits_codes() {
    assert_eq!(with_defaults(8, 0, 1).stop_bits, StopBits::One);
    assert_eq!(with_defaults(8, 0, 2).stop_bits, StopBits::Two);
    assert_eq!(with_defaults(8, 0, 0).stop_bits, StopBits::One);
    assert_eq!(with_defaults(8, 0, 3).stop_bits, StopBits::One);
}

#[test]
fn flow_control_prefers_hardware() {
    assert_eq!(port_config(9600, 8, 0, 1, 0, 0, 0, 0).flow_control, FlowControl::Off);
    assert_eq!(port_config(9600, 8, 0, 1, 1, 0, 0, 0).flow_control, FlowControl::Hardware);
    assert_eq!(port_config(9600, 8, 0, 1, 1, 1, 1, 0).flow_control, FlowControl::Hardware);
    assert_eq!(port_config(9600, 8, 0, 1, 0, 1, 0, 0).flow_control, FlowControl::Software);
    assert_eq!(port_config(9600, 8, 0, 1, 0, 0, 1, 0).flow_control, FlowControl::Software);
    assert_eq!(port_config(9600, 8, 0, 1, 0, 1, 1, 0).flow_control, FlowControl::Software);
    assert_eq!(port_config(9600, 8, 0, 1, 7, 0, 0, 0).flow_control, FlowControl::Hardware);
}

#[test]
fn baud_rate_passes_through() {
    assert_eq!(port_config(0, 8, 0, 1, 0, 0, 0, 0).baud_rate, 0);
    assert_eq!(port_config(115_200, 8, 0, 1, 0, 0, 0, 0).baud_rate, 115_200);
    assert_eq!(port_config(u32::MAX, 8, 0, 1, 0, 0, 0, 0).baud_rate, u32::MAX);
}

#[test]
fn negative_timeout_becomes_fallback() {
    assert_eq!(FALLBACK_TIMEOUT_MS, 10_000);
    assert_eq!(port_config(9600, 8, 0, 1, 0, 0, 0, -1).timeout_ms, 10_000);
    assert_eq!(port_config(9600, 8, 0, 1, 0, 0, 0, i32::MIN).timeout_ms, 10_000);
}

#[test]
fn timeout_that_is_not_negative_is_kept() {
    assert_eq!(port_config(9600, 8, 0, 1, 0, 0, 0, 0).timeout_ms, 0);
    assert_eq!(port_config(9600, 8, 0, 1, 0, 0, 0, 250).timeout_ms, 250);
    assert_eq!(port_config(9600, 8, 0, 1, 0, 0, 0, 20_000).timeout_ms, 20_000);
    assert_eq!(port_config(9600, 8, 0, 1, 0, 0, 0, i32::MAX).timeout_ms, 2_147_483_647);
}

#[test]
fn whole_configuration() {
    let config = port_config(19_200, 7, 2, 2, 0, 1, 0, 1500);
    assert_eq!(
        config,
        PortConfig {
            baud_rate: 19_200,
            data_bits: DataBits::Seven,
            parity: Parity::Even,
            stop_bits: StopBits::Two,
            flow_control: FlowControl::Software,
            timeout_ms: 1500,
        }
    );
}
