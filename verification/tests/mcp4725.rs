use hid_rc_controller::drivers::mcp4725::{I2cWrite, DAC_MAX, MCP4725, WRITE_DAC_COMMAND};

#[test]
fn driver_keeps_its_address() {
    assert_eq!(MCP4725::new(0x60).address(), 0x60);
    assert_eq!(MCP4725::new(0x61).address(), 0x61);
    assert_eq!(MCP4725::new(0x60).write_dac_register(1).address, 0x60);
    assert_eq!(MCP4725::new(0x61).write_dac_register_fast(1).address, 0x61);
}

#[test]
fn dac_constants() {
    assert_eq!(DAC_MAX, 4095);
    assert_eq!(WRITE_DAC_COMMAND, 0x40);
}

#[test]
fn standard_write_of_known_codes() {
    let dac = MCP4725::new(0x60);
    assert_eq!(dac.write_dac_register(0), I2cWrite { address: 0x60, bytes: vec![0x40, 0x00, 0x00] });
    assert_eq!(dac.write_dac_register(4095).bytes, vec![0x40, 0xff, 0xf0]);
    assert_eq!(dac.write_dac_register(3288).bytes, vec![0x40, 0xcd, 0x80]);
    assert_eq!(dac.write_dac_register(0x0abc).bytes, vec![0x40, 0xab, 0xc0]);
    assert_eq!(dac.write_dac_register(1).bytes, vec![0x40, 0x00, 0x10]);
    assert_eq!(dac.write_dac_register(16).bytes, vec![0x40, 0x01, 0x00]);
}

#[test]
fn fast_write_of_known_codes() {
    let dac = MCP4725::new(0x61);
    assert_eq!(dac.write_dac_register_fast(0), I2cWrite { address: 0x61, bytes: vec![0x00, 0x00] });
    assert_eq!(dac.write_dac_register_fast(4095).bytes, vec![0xff, 0xf0]);
    assert_eq!(dac.write_dac_register_fast(3288).bytes, vec![0xcd, 0x80]);
    assert_eq!(dac.write_dac_register_fast(0x0abc).bytes, vec![0xab, 0xc0]);
    assert_eq!(dac.write_dac_register_fast(15).bytes, vec![0x00, 0xf0]);
}

#[test]
fn fast_write_gives_every_12_bit_code_back() {
    let dac = MCP4725::new(0x60);
    for code in 0..=4095u16 {
        let bytes = dac.write_dac_register_fast(code).bytes;
        assert_eq!(bytes.len(), 2);
        assert_eq!(bytes[1] & 0x0f, 0);
        let read_back = ((bytes[0] as u16) << 4) | ((bytes[1] as u16) >> 4);
        assert_eq!(read_back, code);
    }
}

#[test]
fn standard_write_is_three_bytes_and_opens_with_the_command() {
    let dac = MCP4725::new(0x60);
    for code in 0..=u16::MAX {
        let bytes = dac.write_dac_register(code).bytes;
        assert_eq!(bytes.len(), 3);
        assert_eq!(bytes[0], 0x40);
    }
}

#[test]
fn standard_write_carries_the_bytes_of_the_fast_write() {
    let dac = MCP4725::new(0x60);
    for code in 0..=u16::MAX {
        let standard = dac.write_dac_register(code).bytes;
        let fast = dac.write_dac_register_fast(code).bytes;
        assert_eq!(&standard[1..], &fast[..]);
    }
}

#[test]
fn bits_above_the_twelfth_are_dropped() {
    let dac = MCP4725::new(0x60);
    assert_eq!(dac.write_dac_register_fast(0xffff).bytes, vec![0xff, 0xf0]);
    assert_eq!(dac.write_dac_register_fast(0x1000).bytes, vec![0x00, 0x00]);
    assert_eq!(dac.write_dac_register(0xfabc).bytes, vec![0x40, 0xab, 0xc0]);
}
