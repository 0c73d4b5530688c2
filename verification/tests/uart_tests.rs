use phone_os::drivers::mmio::RegWrite;
use phone_os::drivers::uart::{Uart, UART_BASE_DEFAULT};

fn config_writes(ibrd: u32, fbrd: u32) -> Vec<RegWrite> {
    vec![
        RegWrite { word: 0x30 / 4, value: 0 },
        RegWrite { word: 0x24 / 4, value: ibrd },
        RegWrite { word: 0x28 / 4, value: fbrd },
        RegWrite { word: 0x2C / 4, value: 0x70 },
        RegWrite { word: 0x38 / 4, value: 0 },
        RegWrite { word: 0x30 / 4, value: 0x301 },
    ]
}

#[test]
fn default_base() {
    assert_eq!(Uart::new().base_address(), 0x900_0000);
    assert_eq!(UART_BASE_DEFAULT, 0x900_0000);
    assert_eq!(Uart::with_base(0x01c2_8000).base_address(), 0x01c2_8000);
}

#[test]
fn default_init_divisor() {
    let mut u = Uart::new();
    assert_eq!(u.init(), config_writes(26, 3));
}

#[test]
fn custom_baud_divisor() {
    let mut u = Uart::with_base(0x1100_0000);
    assert_eq!(u.init_with_baud(9600, 24_000_000), config_writes(156, 16));
    assert_eq!(u.init_with_baud(115200, 1_000_000), config_writes(0, 35));
    assert_eq!(u.base_address(), 0x1100_0000);
}

#[test]
fn fractional_divisor_rounds_to_nearest() {
    let mut u = Uart::new();
    // 4 * 3_000_000 / 115200 = 104.17 sixty-fourths: IBRD 1, FBRD 40.
    assert_eq!(u.init_with_baud(115200, 3_000_000), config_writes(1, 40));
    // 4 * 24_000_000 / 115200 = 833.33: IBRD 13, FBRD 1.
    assert_eq!(u.init_with_baud(115200, 24_000_000), config_writes(13, 1));
    // 4 * 48_000_000 / 9600 = 20000: IBRD 312, FBRD 32.
    assert_eq!(u.init_with_baud(9600, 48_000_000), config_writes(312, 32));
}

#[test]
fn tx_ready_flag() {
    let u = Uart::new();
    assert!(u.is_tx_ready(0));
    assert!(u.is_tx_ready(0x08));
    assert!(!u.is_tx_ready(0x20));
}

#[test]
fn write_byte_waits_for_room() {
    let u = Uart::new();
    assert_eq!(u.write_byte(0x20, b'A'), None);
    assert_eq!(u.write_byte(0, b'A'), Some(RegWrite { word: 0, value: 0x41 }));
}

#[test]
fn write_str_adds_carriage_returns() {
    let u = Uart::new();
    assert_eq!(u.write_str("ab"), b"ab".to_vec());
    assert_eq!(u.write_str("a\nb\n"), b"a\r\nb\r\n".to_vec());
    assert_eq!(u.write_str("x\r\n"), b"x\r\r\n".to_vec());
    assert_eq!(u.write_str(""), Vec::<u8>::new());
}

#[test]
fn write_str_concatenates() {
    let u = Uart::new();
    let mut joined = u.write_str("line one\n");
    joined.extend(u.write_str("two\n"));
    assert_eq!(joined, u.write_str("line one\ntwo\n"));
}
