use ferrisboy::cart::{Cart, CartError};
use ferrisboy::decoder::opcode_info;

fn image_with_header() -> Vec<u8> {
    let mut rom = vec![0u8; 0x8000];
    for (i, b) in b"TETRIS".iter().enumerate() {
        rom[0x134 + i] = *b;
    }
    rom[0x147] = 0x01;
    rom[0x148] = 0x05;
    rom[0x149] = 0x02;
    rom[0x14A] = 0x01;
    rom[0x14B] = 0x33;
    rom[0x14C] = 0x01;
    rom[0x14D] = 0xA5;
    rom[0x14E] = 0x12;
    rom[0x14F] = 0x34;
    rom
}

#[test]
fn header_fields_are_read() {
    let rom = image_with_header();
    let h = Cart::parse_header(&rom).unwrap();
    assert_eq!(h.title, "TETRIS");
    assert_eq!(h.type_val, 0x01);
    assert_eq!(h.rom_size, 0x05);
    assert_eq!(h.ram_size, 0x02);
    assert_eq!(h.dest_code, 0x01);
    assert_eq!(h.lic_code, 0x33);
    assert_eq!(h.version, 0x01);
    assert_eq!(h.checksum, 0xA5);
    assert_eq!(h.global_checksum, 0x1234);
}

#[test]
fn full_title_keeps_all_sixteen_bytes() {
    let mut rom = image_with_header();
    for i in 0..16 {
        rom[0x134 + i] = b'A' + i as u8;
    }
    assert_eq!(Cart::parse_header(&rom).unwrap().title, "ABCDEFGHIJKLMNOP");
}

#[test]
fn invalid_title_is_empty() {
    let mut rom = image_with_header();
    rom[0x134] = 0xFF;
    assert_eq!(Cart::parse_header(&rom).unwrap().title, "");
}

#[test]
fn short_image_is_malformed() {
    let rom = vec![0u8; 0x14F];
    assert_eq!(Cart::parse_header(&rom).err(), Some(CartError::MalformedImage { len: 0x14F }));
    let mut cart = Cart::new();
    assert_eq!(cart.load_rom(rom), Err(CartError::MalformedImage { len: 0x14F }));
    assert!(cart.rom_head.is_none());
    assert!(cart.rom_data.is_empty());
}

#[test]
fn load_rom_keeps_image_and_header() {
    let mut cart = Cart::new();
    assert_eq!(cart.filename, "none");
    assert_eq!(cart.load_rom(image_with_header()), Ok(()));
    assert_eq!(cart.rom_data.len(), 0x8000);
    assert_eq!(cart.rom_head.as_ref().unwrap().title, "TETRIS");
}

#[test]
fn header_code_names() {
    assert_eq!(Cart::rom_size_bytes(0x00), "32KB");
    assert_eq!(Cart::rom_size_bytes(0x54), "1.5MB");
    assert_eq!(Cart::rom_size_bytes(0x09), "Unknown");
    assert_eq!(Cart::cart_type_name(0x03), "MBC1 + RAM + BATTERY");
    assert_eq!(Cart::cart_type_name(0x04), "UNKOWN");
    assert_eq!(Cart::license_name(0x01), "Nintendo");
    assert_eq!(Cart::license_name(0x33), "Check New Licensee Code");
    assert_eq!(Cart::license_name(0xFF), "LJN");
    assert_eq!(Cart::license_name(0x02), "Unknown");
}

#[test]
fn opcode_descriptors() {
    let nop = opcode_info(0x00);
    assert_eq!((nop.mnemonic, nop.bytes, nop.immediate), ("NOP", 1, true));
    let ld = opcode_info(0x01);
    assert_eq!((ld.mnemonic, ld.bytes, ld.immediate), ("LD", 3, true));
    let st = opcode_info(0x02);
    assert_eq!((st.bytes, st.immediate), (1, false));
    let inc = opcode_info(0x34);
    assert!(!inc.immediate);
    assert_eq!(opcode_info(0xCB).bytes, 2);
    assert_eq!(opcode_info(0xEA).bytes, 3);
    assert_eq!(opcode_info(0xD3).mnemonic, "ILLEGAL_D3");
    assert_eq!(opcode_info(0x10).bytes, 2);
}

#[test]
fn load_rom_stores_parsed_header() {
    let mut cart = Cart::new();
    cart.load_rom(image_with_header()).unwrap();
    let h = cart.rom_head.as_ref().unwrap();
    assert_eq!((h.type_val, h.rom_size, h.lic_code, h.global_checksum), (0x01, 0x05, 0x33, 0x1234));
    assert_eq!(cart.load_rom(vec![0u8; 3]), Err(CartError::MalformedImage { len: 3 }));
    assert_eq!(cart.rom_head.as_ref().unwrap().title, "TETRIS");
    assert_eq!(cart.rom_data.len(), 0x8000);
}
