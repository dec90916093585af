use lis331::regmap::{Register, SlaveAddr};

#[test]
fn slave_addresses() {
    assert_eq!(SlaveAddr::Default.addr(), 0x18);
    assert_eq!(SlaveAddr::Alternate.addr(), 0x19);
}

#[test]
fn register_addresses() {
    let expected = [
        (Register::CTRL1, 0x20),
        (Register::CTRL2, 0x21),
        (Register::CTRL3, 0x22),
        (Register::CTRL4, 0x23),
        (Register::CTRL5, 0x24),
        (Register::HP_FILTER_RESET, 0x25),
        (Register::REFERENCE, 0x26),
        (Register::STATUS, 0x27),
        (Register::OUT_X_L, 0x28),
        (Register::OUT_X_H, 0x29),
        (Register::OUT_Y_L, 0x2A),
        (Register::OUT_Y_H, 0x2B),
        (Register::OUT_Z_L, 0x2C),
        (Register::OUT_Z_H, 0x2D),
        (Register::INT1_CFG, 0x30),
        (Register::INT1_SRC, 0x31),
        (Register::INT1_THS, 0x32),
        (Register::INT1_DURATION, 0x33),
        (Register::INT2_CFG, 0x34),
        (Register::INT2_SRC, 0x35),
        (Register::INT2_THS, 0x36),
        (Register::INT2_DURATION, 0x37),
    ];
    for (register, addr) in expected {
        assert_eq!(register.addr(), addr);
    }
}

#[test]
fn read_only_exactly_the_hardware_driven_registers() {
    let read_only = [
        Register::STATUS,
        Register::OUT_X_L,
        Register::OUT_X_H,
        Register::OUT_Y_L,
        Register::OUT_Y_H,
        Register::OUT_Z_L,
        Register::OUT_Z_H,
        Register::INT1_SRC,
        Register::INT2_SRC,
    ];
    let all = [
        Register::CTRL1,
        Register::CTRL2,
        Register::CTRL3,
        Register::CTRL4,
        Register::CTRL5,
        Register::HP_FILTER_RESET,
        Register::REFERENCE,
        Register::STATUS,
        Register::OUT_X_L,
        Register::OUT_X_H,
        Register::OUT_Y_L,
        Register::OUT_Y_H,
        Register::OUT_Z_L,
        Register::OUT_Z_H,
        Register::INT1_CFG,
        Register::INT1_SRC,
        Register::INT1_THS,
        Register::INT1_DURATION,
        Register::INT2_CFG,
        Register::INT2_SRC,
        Register::INT2_THS,
        Register::INT2_DURATION,
    ];
    for register in all {
        assert_eq!(register.read_only(), read_only.contains(&register));
    }
}
