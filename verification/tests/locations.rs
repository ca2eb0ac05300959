use gba_hal::data::{
    Color, DMAControl, DisplayControl, InterruptRequestFlags, StartTiming, FP_I_19_8, FP_I_7_8,
};
use gba_hal::location::{Access, Block, ReadOnly, ReadWrite, Series, WriteOnly};
use gba_hal::mmio::{
    affine_params_a, affine_params_d, bg2x, bldy, disable_interrupts, dispcnt, dispstat,
    dma0_control, dma0_source, dma1_control, dma2_control, dma3_control, dma3_dest,
    enable_interrupts, fifo_a, ie, interrupt_master_read, interrupts_are_enabled,
    irq_acknowledge, irq_pending, keycnt, keyinput, obg_attrs_0, obg_attrs_1, obg_attrs_2,
    palram_bg, palram_obj, pulse_a_sweep, set_dma0_control, set_dma1_control, set_dma2_control,
    set_dma3_control, soundbias, timer0_control, timer0_counter, timer0_reload, timer3_control,
    vcount, wave_ram, IME_ADDRESS, PAGE1_OFFSET, VRAM_BASE_USIZE,
};
use gba_hal::register::{Register, Width};

#[test]
fn widths_count_their_bytes() {
    assert_eq!(Width::Byte.bytes(), 1);
    assert_eq!(Width::Half.bytes(), 2);
    assert_eq!(Width::Word.bytes(), 4);
    assert_eq!(u8::access_width(), Width::Byte);
    assert_eq!(u16::access_width(), Width::Half);
    assert_eq!(i16::access_width(), Width::Half);
    assert_eq!(u32::access_width(), Width::Word);
    assert_eq!(i32::access_width(), Width::Word);
    assert_eq!(DisplayControl::access_width(), Width::Half);
    assert_eq!(gba_hal::data::TimerControl::access_width(), Width::Byte);
    assert_eq!(FP_I_7_8::access_width(), Width::Half);
    assert_eq!(FP_I_19_8::access_width(), Width::Word);
}

#[test]
fn bit_patterns_round_trip_and_ignore_high_bits() {
    assert_eq!(0xABu8.to_bits(), 0xAB);
    assert_eq!(u8::from_bits(0x1234_56AB), 0xAB);
    assert_eq!(0xBEEFu16.to_bits(), 0xBEEF);
    assert_eq!(u16::from_bits(0x1234_BEEF), 0xBEEF);
    assert_eq!(u32::from_bits(0xDEAD_BEEF), 0xDEAD_BEEF);
    assert_eq!((-1i16).to_bits(), 0xFFFF);
    assert_eq!((-2i16).to_bits(), 0xFFFE);
    assert_eq!(i16::from_bits(0xFFFF), -1);
    assert_eq!(i16::from_bits(0x0001_8000), i16::MIN);
    assert_eq!((-1i32).to_bits(), 0xFFFF_FFFF);
    assert_eq!(i32::from_bits(0x8000_0000), i32::MIN);
    assert_eq!(FP_I_7_8(-256).to_bits(), 0xFF00);
    assert_eq!(FP_I_7_8::from_bits(0xFF00), FP_I_7_8(-256));
    assert_eq!(FP_I_19_8(-256).to_bits(), 0xFFFF_FF00);
    assert_eq!(FP_I_19_8::from_bits(0xFFFF_FF00), FP_I_19_8(-256));
    assert_eq!(DisplayControl::from_raw(0x8421).to_bits(), 0x8421);
    assert_eq!(DisplayControl::from_bits(0xFFFF_8421), DisplayControl::from_raw(0x8421));
    assert_eq!(Color::from_bits(0x7FFF), Color(0x7FFF));
    for raw in 0..=u16::MAX {
        let value = DMAControl::from_raw(raw);
        assert_eq!(DMAControl::from_bits(value.to_bits()), value);
        assert_eq!(i16::from_bits((raw as i16).to_bits()), raw as i16);
    }
}

#[test]
fn read_write_location_yields_both_accesses() {
    let loc = dispcnt();
    assert_eq!(loc.to_usize(), 0x400_0000);
    assert_eq!(loc.read(), Access::Read { address: 0x400_0000, width: Width::Half });
    let value = DisplayControl::from_raw(0x0403);
    assert_eq!(
        loc.write(value),
        Access::Write { address: 0x400_0000, width: Width::Half, bits: 0x0403 }
    );
    let copy = loc;
    assert_eq!(copy, loc);
    assert_eq!(loc.clone().to_usize(), 0x400_0000);
    let own: ReadWrite<u8> = ReadWrite::new(0x1000);
    assert_eq!(own.write(0x7F), Access::Write { address: 0x1000, width: Width::Byte, bits: 0x7F });
    assert_eq!(own.read(), Access::Read { address: 0x1000, width: Width::Byte });
}

#[test]
fn read_only_location_yields_a_read() {
    let loc = vcount();
    assert_eq!(loc.to_usize(), 0x400_0006);
    assert_eq!(loc.read(), Access::Read { address: 0x400_0006, width: Width::Half });
    let own: ReadOnly<u32> = ReadOnly::new(0x2000);
    assert_eq!(own.read(), Access::Read { address: 0x2000, width: Width::Word });
    assert_eq!(timer0_counter().read(), Access::Read { address: 0x400_0100, width: Width::Half });
}

#[test]
fn write_only_location_yields_a_write() {
    let loc = bg2x();
    assert_eq!(loc.to_usize(), 0x400_0028);
    assert_eq!(
        loc.write(FP_I_19_8(-1)),
        Access::Write { address: 0x400_0028, width: Width::Word, bits: 0xFFFF_FFFF }
    );
    let own: WriteOnly<u16> = WriteOnly::new(0x3000);
    assert_eq!(
        own.write(0x1234),
        Access::Write { address: 0x3000, width: Width::Half, bits: 0x1234 }
    );
    assert_eq!(
        timer0_reload().write(0xFF00),
        Access::Write { address: 0x400_0100, width: Width::Half, bits: 0xFF00 }
    );
    assert_eq!(
        fifo_a().write(0x0403_0201),
        Access::Write { address: 0x400_00A0, width: Width::Word, bits: 0x0403_0201 }
    );
}

#[test]
fn catalog_addresses() {
    assert_eq!(dispstat().to_usize(), 0x400_0004);
    assert_eq!(bldy().to_usize(), 0x400_0054);
    assert_eq!(pulse_a_sweep().to_usize(), 0x400_0060);
    assert_eq!(pulse_a_sweep().read(), Access::Read { address: 0x400_0060, width: Width::Byte });
    assert_eq!(soundbias().to_usize(), 0x400_0088);
    assert_eq!(dma0_source().to_usize(), 0x400_00B0);
    assert_eq!(dma0_control().to_usize(), 0x400_00BA);
    assert_eq!(dma1_control().to_usize(), 0x400_00C6);
    assert_eq!(dma2_control().to_usize(), 0x400_00D2);
    assert_eq!(dma3_control().to_usize(), 0x400_00DE);
    assert_eq!(dma3_dest().to_usize(), 0x400_00D8);
    assert_eq!(timer0_control().to_usize(), 0x400_0102);
    assert_eq!(timer3_control().to_usize(), 0x400_010E);
    assert_eq!(keyinput().to_usize(), 0x400_0130);
    assert_eq!(keycnt().to_usize(), 0x400_0130);
    assert_eq!(ie().to_usize(), 0x400_0200);
    assert_eq!(IME_ADDRESS, 0x400_0208);
    assert_eq!(VRAM_BASE_USIZE, 0x600_0000);
    assert_eq!(PAGE1_OFFSET, 0xA000);
}

#[test]
fn pending_and_acknowledge_share_one_address_with_opposite_modes() {
    let pending = irq_pending();
    let acknowledge = irq_acknowledge();
    assert_eq!(pending.to_usize(), acknowledge.to_usize());
    assert_eq!(pending.read(), Access::Read { address: 0x400_0200, width: Width::Half });
    let flags = InterruptRequestFlags::new().with_vblank(true);
    assert_eq!(
        acknowledge.write(flags),
        Access::Write { address: 0x400_0200, width: Width::Half, bits: 1 }
    );
}

#[test]
fn block_slots_follow_one_another() {
    let block = palram_bg();
    assert_eq!(block.len(), 256);
    assert_eq!(block.get(0).map(|loc| loc.to_usize()), Some(0x500_0000));
    assert_eq!(block.get(1).map(|loc| loc.to_usize()), Some(0x500_0002));
    assert_eq!(block.get(255).map(|loc| loc.to_usize()), Some(0x500_01FE));
    assert!(block.get(256).is_none());
    assert!(block.get(usize::MAX).is_none());
    assert_eq!(palram_obj().get(0).map(|loc| loc.to_usize()), Some(0x500_0200));
    let wave = wave_ram();
    assert_eq!(wave.len(), 8);
    assert_eq!(wave.get(7).map(|loc| loc.to_usize()), Some(0x400_009E));
    assert!(wave.get(8).is_none());
    let words: Block<u32> = Block::new(0x100, 4);
    assert_eq!(words.get(3).map(|loc| loc.to_usize()), Some(0x10C));
    let empty: Block<u8> = Block::new(0x100, 0);
    assert!(empty.get(0).is_none());
    let slot = block.get(2).unwrap();
    assert_eq!(
        slot.write(Color(0x7FFF)),
        Access::Write { address: 0x500_0004, width: Width::Half, bits: 0x7FFF }
    );
}

#[test]
fn series_slots_are_a_stride_apart() {
    let attrs = obg_attrs_0();
    assert_eq!(attrs.len(), 128);
    assert_eq!(attrs.get(0).map(|loc| loc.to_usize()), Some(0x700_0000));
    assert_eq!(attrs.get(1).map(|loc| loc.to_usize()), Some(0x700_0008));
    assert_eq!(attrs.get(127).map(|loc| loc.to_usize()), Some(0x700_03F8));
    assert!(attrs.get(128).is_none());
    assert_eq!(obg_attrs_1().get(2).map(|loc| loc.to_usize()), Some(0x700_0012));
    assert_eq!(obg_attrs_2().get(3).map(|loc| loc.to_usize()), Some(0x700_001C));
    let affine = affine_params_a();
    assert_eq!(affine.len(), 32);
    assert_eq!(affine.get(1).map(|loc| loc.to_usize()), Some(0x700_0026));
    assert_eq!(affine.get(31).map(|loc| loc.to_usize()), Some(0x700_03E6));
    assert!(affine.get(32).is_none());
    assert_eq!(affine_params_d().get(0).map(|loc| loc.to_usize()), Some(0x700_001E));
    let own: Series<u16> = Series::new(0x40, 3, 16);
    assert_eq!(own.get(2).map(|loc| loc.to_usize()), Some(0x60));
    assert!(own.get(3).is_none());
}

#[test]
fn interrupt_master_switch() {
    assert_eq!(
        disable_interrupts(),
        Access::Write { address: 0x400_0208, width: Width::Byte, bits: 0 }
    );
    assert_eq!(
        enable_interrupts(),
        Access::Write { address: 0x400_0208, width: Width::Byte, bits: 1 }
    );
    assert_eq!(
        interrupt_master_read(),
        Access::Read { address: 0x400_0208, width: Width::Byte }
    );
    assert!(!interrupts_are_enabled(0));
    assert!(interrupts_are_enabled(1));
    assert!(!interrupts_are_enabled(0xFE));
    assert!(interrupts_are_enabled(0xFF));
    assert!(interrupts_are_enabled(3));
    assert!(!interrupts_are_enabled(2));
}

#[test]
fn dma_control_writes() {
    let ctrl = DMAControl::new()
        .with_dma_enable(true)
        .with_dma_is_32bit(true)
        .with_dma_start_time(StartTiming::VBlank);
    assert_eq!(ctrl.to_raw(), 0x9400);
    assert_eq!(
        set_dma0_control(ctrl),
        Access::Write { address: 0x400_00BA, width: Width::Half, bits: 0x9400 }
    );
    assert_eq!(
        set_dma1_control(ctrl),
        Access::Write { address: 0x400_00C6, width: Width::Half, bits: 0x9400 }
    );
    assert_eq!(
        set_dma2_control(ctrl),
        Access::Write { address: 0x400_00D2, width: Width::Half, bits: 0x9400 }
    );
    assert_eq!(
        set_dma3_control(DMAControl::new()),
        Access::Write { address: 0x400_00DE, width: Width::Half, bits: 0 }
    );
}
