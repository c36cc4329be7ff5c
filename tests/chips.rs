use pcxt::clock;
use pcxt::cpu8086::start;
use pcxt::dma;
use pcxt::faraday;
use pcxt::flag::Flags;
use pcxt::graphics;
use pcxt::ibm_xt;
use pcxt::instructions::lookup::step;
use pcxt::memory1mb;
use pcxt::memory1mb::{Memory, RomError};
use pcxt::pic;
use pcxt::pic::{CPUMsg, PICMsg};
use pcxt::pit;

#[test]
fn timer_interrupt_reaches_the_processor() {
    let mut cpu = start(Memory::zeroed(), ibm_xt::start());
    cpu.regs.sp = 0x0400;
    cpu.memory.cs = 0x0000;
    cpu.memory.ip = 0x0500;
    cpu.memory.ram.set_word(0x0020, 0x1234);
    cpu.memory.ram.set_word(0x0022, 0x0F00);
    cpu.flags.interrupt = true;
    cpu.bus.out_byte(0x21, 0x00);
    cpu.bus.out_byte(0x43, 0x30);
    cpu.bus.out_byte(0x40, 100);
    cpu.bus.out_byte(0x40, 0);
    assert_eq!(cpu.bus.pic.vector_offset, 0x08);
    for _ in 0..100 {
        cpu.timer_tick();
        assert_eq!(cpu.interrupt, None);
    }
    cpu.timer_tick();
    assert_eq!(cpu.interrupt, Some(0x08));
    let flags_before = cpu.flags.get_bits_word();
    step(&mut cpu).unwrap();
    assert_eq!(cpu.interrupt, None);
    assert_eq!(cpu.memory.ip, 0x1234);
    assert_eq!(cpu.memory.cs, 0x0F00);
    assert_eq!(cpu.regs.sp, 0x03FA);
    assert_eq!(cpu.memory.ram.get_word(0x03FA), 0x0500);
    assert_eq!(cpu.memory.ram.get_word(0x03FC), 0x0000);
    assert_eq!(cpu.memory.ram.get_word(0x03FE), flags_before);
    assert!(!cpu.flags.interrupt);
    for _ in 0..1000 {
        cpu.timer_tick();
    }
    assert_eq!(cpu.interrupt, None);
}

#[test]
fn counter_in_interrupt_mode_fires_once_after_n_plus_one_ticks() {
    let mut p = pit::start();
    p.set_control_word(0b0001_0000);
    p.set_count(0, 5);
    let mut fired = 0;
    for t in 1..=20 {
        let (f, _, _) = p.tick();
        if f {
            fired += 1;
            assert_eq!(t, 6);
        }
    }
    assert_eq!(fired, 1);
}

#[test]
fn counter_zero_count_means_65536() {
    let mut p = pit::start();
    p.set_control_word(0b0001_0000);
    p.set_count(0, 0);
    let mut first = 0;
    for t in 1..=70000u32 {
        let (f, _, _) = p.tick();
        if f && first == 0 {
            first = t;
        }
    }
    assert_eq!(first, 65537);
}

#[test]
fn counter_rate_generator_reloads_without_signal() {
    let mut p = pit::start();
    p.set_control_word(0b0001_0100);
    p.set_count(0, 3);
    for _ in 0..20 {
        let (f, _, _) = p.tick();
        assert!(!f);
    }
    assert!(p.0.enabled);
}

#[test]
fn counter_latch_holds_value_until_read() {
    let mut p = pit::start();
    p.set_control_word(0b0011_0100);
    p.set_count(0, 0x34);
    p.set_count(0, 0x12);
    p.tick();
    assert_eq!(p.0.counting_element, 0x1234);
    p.set_control_word(0b0000_0000);
    p.tick();
    p.tick();
    assert_eq!(p.get_count(0), 0x34);
    assert_eq!(p.get_count(0), 0x12);
    p.tick();
    assert_eq!(p.get_count(0), 0x31);
}

#[test]
fn masked_line_keeps_request_pending() {
    let mut p = pic::start();
    p.out_port_2(0x01);
    assert_eq!(p.get_irqs_enabled(), 0x01);
    assert_eq!(p.process_msg(PICMsg::PIT { select_counter: 0 }), None);
    assert_eq!(p.in_port_1() & 1, 1);
    p.out_port_2(0x00);
    assert_eq!(p.in_port_1() & 1, 1);
    assert_eq!(p.process_msg(PICMsg::PIT { select_counter: 0 }), Some(CPUMsg::Interrupt(0x08)));
    p.out_port_1(0x0B);
    assert_eq!(p.in_port_1() & 1, 1);
    p.out_port_1(0x20);
    assert_eq!(p.in_port_1(), 0);
}

#[test]
fn pic_initialization_sets_vector_offset() {
    let mut p = pic::start();
    p.out_port_1(0x13);
    p.out_port_2(0x20);
    p.out_port_2(0x00);
    p.out_port_2(0x01);
    p.out_port_2(0xFE);
    assert_eq!(p.vector_offset, 0x20);
    assert_eq!(p.get_irqs_enabled(), 0xFE);
    assert_eq!(p.process_msg(PICMsg::PIT { select_counter: 0 }), Some(CPUMsg::Interrupt(0x20)));
    assert_eq!(p.process_msg(PICMsg::PIT { select_counter: 0 }), None);
}

#[test]
fn flag_word_round_trip() {
    let mut f = Flags::default();
    f.carry = true;
    f.zero = true;
    f.direction = true;
    f.overflow = true;
    let w = f.get_bits_word();
    assert_eq!(w, 0xF000 | 0x0002 | 0x0001 | 0x0040 | 0x0400 | 0x0800);
    let mut g = Flags::default();
    g.set_bits_word(w);
    assert_eq!(g.get_bits_word(), w);
    assert!(g.carry && g.zero && g.direction && g.overflow);
    assert!(!g.parity && !g.sign && !g.trap && !g.interrupt && !g.adjust);
    assert_eq!(Flags::default().get_bits_word() & 0xF002, 0xF002);
}

#[test]
fn zero_and_parity_flags() {
    let mut f = Flags::default();
    assert_eq!(f.add_byte(0xFF, 0x01), 0x00);
    assert!(f.zero && f.carry && f.parity);
    assert_eq!(f.add_word(0x00FF, 0x0001), 0x0100);
    assert!(!f.zero && f.parity && !f.carry);
    f.test_and_or_xor_byte(0x07);
    assert!(!f.parity);
    f.parity_zero_sign_word(0x0303);
    assert!(f.parity && !f.sign);
}

#[test]
fn subtract_with_borrow() {
    let mut f = Flags::default();
    f.carry = true;
    assert_eq!(f.sbb_byte(0x00, 0x00), 0xFF);
    assert!(f.carry && f.sign && f.adjust);
    assert_eq!(f.cmp_sub_word(0x8000, 0x0001), 0x7FFF);
    assert!(f.overflow && !f.carry);
}

#[test]
fn inc_and_dec_keep_carry() {
    let mut f = Flags::default();
    f.carry = true;
    assert_eq!(f.inc_byte(0x7F), 0x80);
    assert!(f.overflow && f.carry && f.adjust);
    assert_eq!(f.dec_word(0x8000), 0x7FFF);
    assert!(f.overflow && f.carry);
}

#[test]
fn shifts_set_carry_from_last_bit_out() {
    let mut f = Flags::default();
    assert_eq!(f.shr_ror_rcr_byte(0x81, 1), 0x40);
    assert!(f.carry && f.overflow);
    assert_eq!(f.shl_rol_rcl_word(0x4001, 2), 0x0004);
    assert!(f.carry);
    assert_eq!(f.shr_ror_rcr_word(0x1234, 0), 0x1234);
}

#[test]
fn memory_word_is_two_little_endian_bytes() {
    let mut m = Memory::zeroed();
    m.set_word(0x1234, 0xABCD);
    assert_eq!(m.get_byte(0x1234), 0xCD);
    assert_eq!(m.get_byte(0x1235), 0xAB);
    assert_eq!(m.get_word(0x1234), 0xABCD);
    m.set_word(0xFFFFF, 0x1122);
    assert_eq!(m.get_byte(0xFFFFF), 0x22);
    assert_eq!(m.get_byte(0x00000), 0x11);
    for i in 0..8usize {
        m.set_byte(0x2000 + i, i as u8 + 1);
    }
    assert_eq!(m.get_bytes8(0x2000), 0x0807060504030201);
}

#[test]
fn rom_images_are_mapped() {
    let bios: Vec<u8> = (0..0x10000u32).map(|i| (i % 251) as u8).collect();
    let video = vec![0x55u8, 0xAA];
    let m = memory1mb::start(&bios, &video).unwrap();
    assert_eq!(m.get_byte(0xF0000), 0);
    assert_eq!(m.get_byte(0xFFFF0), (0xFFF0u32 % 251) as u8);
    assert_eq!(m.get_byte(0xC0000), 0x55);
    assert_eq!(m.get_byte(0xC0001), 0xAA);
    assert_eq!(m.get_byte(0xC0002), 0);
}

#[test]
fn wrong_rom_sizes_are_refused() {
    let short = vec![0u8; 100];
    assert!(matches!(memory1mb::start(&short, &Vec::new()), Err(RomError::BiosSize(100))));
    let bios = vec![0u8; 0x10000];
    let video = vec![0u8; 0x30001];
    assert!(matches!(memory1mb::start(&bios, &video), Err(RomError::VideoSize(0x30001))));
}

#[test]
fn unmapped_port_reads_all_ones() {
    let mut bus = ibm_xt::start();
    assert_eq!(bus.in_byte(0x3F8), 0xFF);
    assert_eq!(bus.in_word(0x3F8), 0xFFFF);
    bus.out_byte(0x3F8, 0x12);
    assert_eq!(bus.in_byte(0x21), 0xFF);
    bus.out_byte(0x21, 0xFE);
    assert_eq!(bus.in_byte(0x21), 0xFE);
}

#[test]
fn dma_address_is_written_low_then_high() {
    let mut d = dma::start();
    d.set_address(1, 0x34);
    d.set_address(1, 0x12);
    assert_eq!(d.channel_1.address, 0x1234);
    assert_eq!(d.get_address(1), 0x34);
    assert_eq!(d.get_address(1), 0x12);
    d.set_count(2, 0xFF);
    d.reset_flip_flop();
    assert_eq!(d.get_count(2), 0xFF);
    d.set_masks(0b1010);
    assert!(!d.channel_0.mask && d.channel_1.mask && !d.channel_2.mask && d.channel_3.mask);
    d.set_mask(0b110);
    assert!(d.channel_2.mask);
    d.reset_master();
    assert!(d.channel_0.mask);
    d.set_mode(0b0100_0101);
    assert_eq!(d.channel_1.transfer_type, dma::TransferType::WriteToMemory);
    assert_eq!(d.channel_1.transfer_mode, dma::TransferMode::SingleDMA);
}

#[test]
fn ppi_port_b_reads_back() {
    let mut p = faraday::start();
    p.write_port_b(0b0101_0111);
    assert_eq!(p.read_port_b(), 0b0101_0111);
    assert!(!p.enable.parity_check && p.enable.io_check);
    assert_eq!(p.read_port_c(), 0);
    p.set_configuration(0b0100_0100);
    assert_eq!(p.switches.memory_size, faraday::MemorySize::K256);
    assert_eq!(p.read_port_c(), 0b100);
}

#[test]
fn crtc_cursor_address_is_written_by_halves() {
    let mut g = graphics::start();
    g.choose_register(0x0E);
    g.set_register_data(0x12);
    g.choose_register(0x0F);
    g.set_register_data(0x34);
    assert_eq!(g.cursor_address, 0x1234);
    g.set_mode_bw(0b0010_1001);
    assert_eq!(g.get_mode_bw(), 0b0010_1001);
}

#[test]
fn clock_pulses_each_subscriber_on_its_period() {
    let mut c = clock::init(210);
    let a = c.add(1);
    let b = c.add(4);
    let mut count_b = 0;
    for _ in 0..12 {
        let pulses = c.tick();
        assert!(pulses[a]);
        if pulses[b] {
            count_b += 1;
        }
    }
    assert_eq!(count_b, 3);
}

#[test]
fn memory_messages_are_served() {
    let mut m = Memory::zeroed();
    assert_eq!(m.process_msg(memory1mb::MemoryMsg::SetWord { addr: 0x400, value: 0x1234 }), None);
    assert_eq!(m.process_msg(memory1mb::MemoryMsg::GetByte { addr: 0x400 }), Some(0x34));
    assert_eq!(m.process_msg(memory1mb::MemoryMsg::GetWord { addr: 0x400 }), Some(0x1234));
    assert_eq!(m.process_msg(memory1mb::MemoryMsg::SetByte { addr: 0x407, value: 0x99 }), None);
    assert_eq!(m.process_msg(memory1mb::MemoryMsg::GetBytes8 { addr: 0x400 }), Some(0x9900_0000_0000_1234));
}

#[test]
fn port_messages_are_served() {
    let mut bus = ibm_xt::start();
    assert_eq!(bus.process_msg(ibm_xt::MotherboardMsg::OutByte { port: 0x21, value: 0x3C }), None);
    assert_eq!(bus.process_msg(ibm_xt::MotherboardMsg::InByte { port: 0x21 }), Some(0x3C));
    assert_eq!(bus.process_msg(ibm_xt::MotherboardMsg::InWord { port: 0x300 }), Some(0xFFFF));
}
