use shrek_superslam::console::console_from_name;
use shrek_superslam::{Console, FloatBits};

fn float(r: FloatBits) -> f32 {
    f32::from_bits(r.bits)
}

fn bits(f: f32) -> FloatBits {
    FloatBits { bits: f.to_bits() }
}

#[test]
fn read_u32_pc() {
    let data1 = vec![0x00, 0x00, 0x00, 0x00];
    let data2 = vec![0xFF, 0xFF, 0xFF, 0xFF];
    let data3 = vec![0x01, 0x02, 0x03, 0x04];
    let too_short = vec![0x00];
    let too_long = vec![0x01, 0x02, 0x03, 0x04, 0x05];

    assert_eq!(Console::PC.read_u32(&data1[0..4]).unwrap(), 0);
    assert_eq!(Console::PC.read_u32(&data2[0..4]).unwrap(), u32::MAX);
    assert_eq!(Console::PC.read_u32(&data3[0..4]).unwrap(), 0x04030201);
    assert!(Console::PC.read_u32(&too_short).is_err());
    assert_eq!(Console::PC.read_u32(&too_long).unwrap(), 0x04030201);
}

#[test]
fn read_u32_gcn() {
    let data1 = vec![0x00, 0x00, 0x00, 0x00];
    let data2 = vec![0xFF, 0xFF, 0xFF, 0xFF];
    let data3 = vec![0x01, 0x02, 0x03, 0x04];

    assert_eq!(Console::Gamecube.read_u32(&data1[0..4]).unwrap(), 0);
    assert_eq!(Console::Gamecube.read_u32(&data2[0..4]).unwrap(), u32::MAX);
    assert_eq!(
        Console::Gamecube.read_u32(&data3[0..4]).unwrap(),
        0x01020304
    );
}

#[test]
fn write_u32_pc() {
    assert_eq!(
        Console::PC.write_u32(0).unwrap(),
        vec![0x00, 0x00, 0x00, 0x00]
    );
    assert_eq!(
        Console::PC.write_u32(u32::MAX).unwrap(),
        vec![0xFF, 0xFF, 0xFF, 0xFF]
    );
    assert_eq!(
        Console::PC.write_u32(0x04030201).unwrap(),
        vec![0x01, 0x02, 0x03, 0x04]
    );
}

#[test]
fn write_u32_gcn() {
    assert_eq!(
        Console::Gamecube.write_u32(0).unwrap(),
        vec![0x00, 0x00, 0x00, 0x00]
    );
    assert_eq!(
        Console::Gamecube.write_u32(u32::MAX).unwrap(),
        vec![0xFF, 0xFF, 0xFF, 0xFF]
    );
    assert_eq!(
        Console::Gamecube.write_u32(0x04030201).unwrap(),
        vec![0x04, 0x03, 0x02, 0x01]
    );
}

#[test]
fn read_f32_pc() {
    let data1 = vec![0x00, 0x00, 0x00, 0x00];
    let data2 = vec![0x00, 0x00, 0x80, 0x3F];
    let data3 = vec![0x00, 0x00, 0x80, 0xBF];

    assert_eq!(float(Console::PC.read_f32(&data1[0..4]).unwrap()), 0.0);
    assert_eq!(float(Console::PC.read_f32(&data2[0..4]).unwrap()), 1.0);
    assert_eq!(float(Console::PC.read_f32(&data3[0..4]).unwrap()), -1.0);
}

#[test]
fn read_f32_gcn() {
    let data1 = vec![0x00, 0x00, 0x00, 0x00];
    let data2 = vec![0x3F, 0x80, 0x00, 0x00];
    let data3 = vec![0xBF, 0x80, 0x00, 0x00];

    assert_eq!(float(Console::Gamecube.read_f32(&data1[0..4]).unwrap()), 0.0);
    assert_eq!(float(Console::Gamecube.read_f32(&data2[0..4]).unwrap()), 1.0);
    assert_eq!(float(Console::Gamecube.read_f32(&data3[0..4]).unwrap()), -1.0);
}

#[test]
fn write_f32_pc() {
    assert_eq!(
        Console::PC.write_f32(bits(0.0)).unwrap(),
        vec![0x00, 0x00, 0x00, 0x00]
    );
    assert_eq!(
        Console::PC.write_f32(bits(1.0)).unwrap(),
        vec![0x00, 0x00, 0x80, 0x3F]
    );
    assert_eq!(
        Console::PC.write_f32(bits(-1.0)).unwrap(),
        vec![0x00, 0x00, 0x80, 0xBF]
    );
}

#[test]
fn write_f32_gcn() {
    assert_eq!(
        Console::Gamecube.write_f32(bits(0.0)).unwrap(),
        vec![0x00, 0x00, 0x00, 0x00]
    );
    assert_eq!(
        Console::Gamecube.write_f32(bits(1.0)).unwrap(),
        vec![0x3F, 0x80, 0x00, 0x00]
    );
    assert_eq!(
        Console::Gamecube.write_f32(bits(-1.0)).unwrap(),
        vec![0xBF, 0x80, 0x00, 0x00]
    );
}

#[test]
fn read_after_write_on_every_console() {
    for console in [Console::Gamecube, Console::PC, Console::PS2, Console::Xbox] {
        for n in [0u32, 1, 0x80, 0x1234_5678, 0xDEAD_BEEF, u32::MAX] {
            let written = console.write_u32(n).unwrap();
            assert_eq!(written.len(), 4);
            assert_eq!(console.read_u32(&written).unwrap(), n);
        }
        for f in [0.0f32, 1.5, -2.25, f32::MAX, f32::MIN_POSITIVE] {
            let written = console.write_f32(bits(f)).unwrap();
            assert_eq!(float(console.read_f32(&written).unwrap()), f);
        }
    }
}

#[test]
fn only_the_gamecube_is_big_endian() {
    let data = [0x01, 0x02, 0x03, 0x04];
    assert_eq!(Console::Gamecube.read_u32(&data).unwrap(), 0x01020304);
    assert_eq!(Console::PC.read_u32(&data).unwrap(), 0x04030201);
    assert_eq!(Console::PS2.read_u32(&data).unwrap(), 0x04030201);
    assert_eq!(Console::Xbox.read_u32(&data).unwrap(), 0x04030201);
}

#[test]
fn read_of_too_few_bytes_fails() {
    for console in [Console::Gamecube, Console::PC, Console::PS2, Console::Xbox] {
        assert!(matches!(
            console.read_u32(&[1, 2, 3]),
            Err(shrek_superslam::Error::ConsoleNumberError)
        ));
        assert!(matches!(
            console.read_f32(&[]),
            Err(shrek_superslam::Error::ConsoleNumberError)
        ));
    }
}

#[test]
fn read32_takes_the_first_four_bytes() {
    assert_eq!(shrek_superslam::util::read32(&[1, 2, 3, 4, 5], Console::PC), 0x04030201);
    assert_eq!(shrek_superslam::util::read32(&[1, 2, 3, 4, 5], Console::Gamecube), 0x01020304);
}

#[test]
fn console_names() {
    assert!(console_from_name("gc") == Some(Console::Gamecube));
    assert!(console_from_name("pc") == Some(Console::PC));
    assert!(console_from_name("ps2") == Some(Console::PS2));
    assert!(console_from_name("xbox") == Some(Console::Xbox));
    assert!(console_from_name("PC").is_none());
    assert!(console_from_name("").is_none());
    assert!(console_from_name("gamecube").is_none());
}
