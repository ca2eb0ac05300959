use gba_hal::bits::{field_mask16, field_mask8, get_bits16, get_flag16, with_bits16};
use gba_hal::data::{
    BackgroundControl, BlendAlpha, Color, DMAControl, DisplayControl, DisplayMode, DisplayStatus,
    InterruptEnable, KeyControl, KeyInput, Mosaic, OBJAttr1, OBJAttr2, SoundStatusMaster,
    Soundbias, StereoControl, Sweep, TimerControl, WaveInitRAMControl, WindowHorizontal,
    FP_I_19_8, FP_I_7_8,
};

#[test]
fn raw_round_trip_on_every_value() {
    for raw in 0..=u16::MAX {
        assert_eq!(DisplayControl::from_raw(raw).to_raw(), raw);
        assert_eq!(DMAControl::from_raw(raw).to_raw(), raw);
        assert_eq!(Color::from_raw(raw).to_raw(), raw);
        assert_eq!(KeyInput::from_raw(raw).to_raw(), raw);
        assert_eq!(OBJAttr1::from_raw(raw).to_raw(), raw);
    }
    for raw in 0..=u8::MAX {
        assert_eq!(Sweep::from_raw(raw).to_raw(), raw);
        assert_eq!(TimerControl::from_raw(raw).to_raw(), raw);
        assert_eq!(WaveInitRAMControl::from_raw(raw).to_raw(), raw);
    }
    for raw in [i16::MIN, -1, 0, 1, 0x0180, i16::MAX] {
        assert_eq!(FP_I_7_8::from_raw(raw).to_raw(), raw);
    }
    for raw in [i32::MIN, -1, 0, 1, 0x0001_0000, i32::MAX] {
        assert_eq!(FP_I_19_8::from_raw(raw).to_raw(), raw);
    }
}

#[test]
fn new_and_default_are_all_zero() {
    assert_eq!(DisplayControl::new().to_raw(), 0);
    assert_eq!(DisplayControl::default(), DisplayControl::new());
    assert_eq!(Sweep::default().to_raw(), 0);
    assert_eq!(TimerControl::new(), TimerControl::from_raw(0));
    assert_eq!(FP_I_7_8::default().0, 0);
    assert_eq!(FP_I_19_8::new().0, 0);
    assert_eq!(KeyInput::default().0, 0);
    assert_eq!(Color::new(), Color(0));
    assert_eq!(DisplayControl::new().mode(), Some(DisplayMode::Mode0));
    assert!(!DisplayControl::new().bg0());
}

#[test]
fn registers_compare_and_copy_by_value() {
    let a = DisplayStatus::from_raw(0x1234);
    let b = a;
    assert_eq!(a, b);
    assert_ne!(a, DisplayStatus::from_raw(0x1235));
    let changed = b.with_vblank_irq_enable(true);
    assert_eq!(a.to_raw(), 0x1234);
    assert_eq!(changed.to_raw(), 0x123C);
    assert_eq!(format!("{:?}", Color(0x7FFF)), "Color(32767)");
}

#[test]
fn display_control_mode_and_force_vblank_scenario() {
    let ctrl = DisplayControl::new().with_mode(DisplayMode::Mode5);
    assert_eq!(ctrl.to_raw(), 0b0000_0101);
    let ctrl = ctrl.with_force_vblank(true);
    assert_eq!(ctrl.to_raw(), 0b1000_0101);
    assert_eq!(ctrl.mode(), Some(DisplayMode::Mode5));
    assert!(ctrl.force_vblank());
    let ctrl = ctrl.with_force_vblank(false);
    assert_eq!(ctrl.to_raw(), 0b0000_0101);
    assert_eq!(ctrl.mode(), Some(DisplayMode::Mode5));
}

#[test]
fn display_control_flags_sit_at_their_bits() {
    let zero = DisplayControl::new();
    assert_eq!(zero.with_frame1(true).to_raw(), 1 << 4);
    assert_eq!(zero.with_hblank_interval_free(true).to_raw(), 1 << 5);
    assert_eq!(zero.with_oam_memory_1d(true).to_raw(), 1 << 6);
    assert_eq!(zero.with_force_vblank(true).to_raw(), 1 << 7);
    assert_eq!(zero.with_bg0(true).to_raw(), 1 << 8);
    assert_eq!(zero.with_bg1(true).to_raw(), 1 << 9);
    assert_eq!(zero.with_bg2(true).to_raw(), 1 << 10);
    assert_eq!(zero.with_bg3(true).to_raw(), 1 << 11);
    assert_eq!(zero.with_obj(true).to_raw(), 1 << 12);
    assert_eq!(zero.with_win0(true).to_raw(), 1 << 13);
    assert_eq!(zero.with_win1(true).to_raw(), 1 << 14);
    assert_eq!(zero.with_obj_window(true).to_raw(), 1 << 15);
    let full = DisplayControl::from_raw(0xFFFF);
    assert_eq!(full.with_bg2(false).to_raw(), 0xFBFF);
    assert!(full.obj_window() && full.win1() && full.frame1());
    assert!(!full.with_win0(false).win0());
}

#[test]
fn numeric_fields_read_and_write_their_range() {
    let bg = BackgroundControl::new()
        .with_bg_priority(2)
        .with_char_base_block(3)
        .with_mosaic(true)
        .with_screen_base_block(31)
        .with_size(1);
    assert_eq!(bg.to_raw(), 2 | (3 << 2) | (1 << 6) | (31 << 8) | (1 << 14));
    assert_eq!(bg.bg_priority(), 2);
    assert_eq!(bg.char_base_block(), 3);
    assert!(bg.mosaic());
    assert!(!bg.is_8bpp());
    assert_eq!(bg.screen_base_block(), 31);
    assert!(!bg.affine_display_overflow_wrapping());
    assert_eq!(bg.size(), 1);

    let mosaic = Mosaic::from_raw(0x4321);
    assert_eq!(mosaic.bg_horizontal_inc(), 1);
    assert_eq!(mosaic.bg_vertical_inc(), 2);
    assert_eq!(mosaic.obj_horizontal_inc(), 3);
    assert_eq!(mosaic.obj_vertical_inc(), 4);

    let window = WindowHorizontal::new().with_x1(0x12).with_x2(0xF0);
    assert_eq!(window.to_raw(), 0x12F0);
    assert_eq!(window.x1(), 0x12);
    assert_eq!(window.x2(), 0xF0);

    let color = Color::new().with_red(31).with_green(0).with_blue(17);
    assert_eq!(color.0, 31 | (17 << 10));
    assert_eq!(Color(0x7FFF).green(), 31);
    assert_eq!(Color(0xFFFF).with_green(0).0, 0xFC1F);

    let bias = Soundbias::from_raw(0x0200);
    assert_eq!(bias.bias_level(), 0x100);
    assert_eq!(Soundbias::new().with_bias_level(0x1FF).to_raw(), 0x03FE);
    assert_eq!(Soundbias::new().with_amplitude_resolution(3).to_raw(), 0xC000);
    assert_eq!(SoundStatusMaster::new().with_bias_level(0x1FF).to_raw(), 0x03FE);
    assert_eq!(SoundStatusMaster::from_raw(0xC000).amplitude_resolution(), 3);

    let sweep = Sweep::new().with_shift_num(5).with_decreasing(true).with_timer(7);
    assert_eq!(sweep.to_raw(), 5 | (1 << 3) | (7 << 4));
    assert_eq!(sweep.shift_num(), 5);
    assert!(sweep.decreasing());
    assert_eq!(sweep.timer(), 7);

    let attr = OBJAttr2::new().with_tile_id(0x3FF).with_priority(1).with_palbank(9);
    assert_eq!(attr.to_raw(), 0x3FF | (1 << 10) | (9 << 12));
}

#[test]
fn a_value_too_wide_for_its_field_is_cut_to_the_width() {
    assert_eq!(BlendAlpha::new().with_eva_coefficient(0xFFFF).to_raw(), 0x001F);
    assert_eq!(BlendAlpha::new().with_evb_coefficient(0x20).to_raw(), 0);
    assert_eq!(StereoControl::new().with_volume_left(9).volume_left(), 1);
    assert_eq!(Sweep::new().with_timer(0xFF).to_raw(), 0x70);
}

#[test]
fn writing_one_field_leaves_the_others_alone() {
    for raw in [0x0000u16, 0xFFFF, 0xA5A5, 0x5A5A, 0x0F0F, 0x1234] {
        let before = StereoControl::from_raw(raw);
        let after = before.with_volume_left(5);
        assert_eq!(after.volume_left(), 5);
        assert_eq!(after.volume_right(), before.volume_right());
        assert_eq!(after.pulse_a_right(), before.pulse_a_right());
        assert_eq!(after.pulse_b_right(), before.pulse_b_right());
        assert_eq!(after.wave_right(), before.wave_right());
        assert_eq!(after.noise_right(), before.noise_right());
        assert_eq!(after.pulse_a_left(), before.pulse_a_left());
        assert_eq!(after.pulse_b_left(), before.pulse_b_left());
        assert_eq!(after.wave_left(), before.wave_left());
        assert_eq!(after.noise_left(), before.noise_left());
        assert_eq!(after.to_raw() & !0x0070, raw & !0x0070);

        let keys = KeyControl::from_raw(raw);
        let keys_after = keys.with_irq_enabled(!keys.irq_enabled());
        assert_eq!(keys_after.to_raw() ^ raw, 1 << 14);
        assert_eq!(keys_after.require_all_selected_keys(), keys.require_all_selected_keys());
        assert_eq!(keys_after.a(), keys.a());
        assert_eq!(keys_after.l(), keys.l());
    }
}

#[test]
fn field_masks_of_a_register_do_not_overlap() {
    let zero = InterruptEnable::new();
    let masks = [
        zero.with_vblank(true).to_raw(),
        zero.with_hblank(true).to_raw(),
        zero.with_vcounter(true).to_raw(),
        zero.with_timer0(true).to_raw(),
        zero.with_timer1(true).to_raw(),
        zero.with_timer2(true).to_raw(),
        zero.with_timer3(true).to_raw(),
        zero.with_serial(true).to_raw(),
        zero.with_dma0(true).to_raw(),
        zero.with_dma1(true).to_raw(),
        zero.with_dma2(true).to_raw(),
        zero.with_dma3(true).to_raw(),
        zero.with_keypad(true).to_raw(),
        zero.with_game_pak(true).to_raw(),
    ];
    let mut seen: u16 = 0;
    for (bit, mask) in masks.iter().enumerate() {
        assert_eq!(*mask, 1u16 << bit);
        assert_eq!(seen & mask, 0);
        seen |= mask;
    }
    assert_eq!(seen, 0x3FFF);

    let status = DisplayStatus::new();
    let masks = [
        status.with_vblank_flag(true).to_raw(),
        status.with_hblank_flag(true).to_raw(),
        status.with_vcounter_flag(true).to_raw(),
        status.with_vblank_irq_enable(true).to_raw(),
        status.with_hblank_irq_enable(true).to_raw(),
        status.with_vcounter_irq_enable(true).to_raw(),
        status.with_vcount_setting(0xFFFF).to_raw(),
    ];
    let mut seen: u16 = 0;
    for mask in masks {
        assert_ne!(mask, 0);
        assert_eq!(seen & mask, 0);
        seen |= mask;
    }
    assert_eq!(seen, 0xFF3F);
}

#[test]
fn object_flips_share_bits_with_the_affine_index() {
    let zero = OBJAttr1::new();
    assert_eq!(zero.with_affine_index(0x1F).to_raw(), 0x3E00);
    assert_eq!(zero.with_hflip(true).to_raw(), 0x1000);
    assert_eq!(zero.with_vflip(true).to_raw(), 0x2000);
    assert_eq!(zero.with_hflip(true).with_vflip(true).affine_index(), 0b11000);
    assert_eq!(zero.with_col_coordinate(0x1FF).to_raw(), 0x01FF);
    assert!(zero.with_affine_index(0b01000).hflip());
    assert!(!zero.with_affine_index(0b01000).vflip());
}

#[test]
fn key_input_is_low_active() {
    let keys = KeyInput(0b11_1111_1110);
    assert!(!keys.a_released());
    assert!(keys.b_released());
    assert!(keys.l_released());
    assert_eq!(keys.0 ^ 0b11_1111_1111, 1);
    assert_eq!(KeyInput::new().with_r_released(true).0, 1 << 8);
}

#[test]
fn descriptors_name_the_documented_bits() {
    assert_eq!(DisplayControl::MODE, (0, 2));
    assert_eq!(DisplayControl::FRAME1, 4);
    assert_eq!(DisplayControl::FORCE_VBLANK, 7);
    assert_eq!(DisplayControl::OBJ_WINDOW, 15);
    assert_eq!(DisplayStatus::VCOUNT_SETTING, (8, 15));
    assert_eq!(BackgroundControl::SCREEN_BASE_BLOCK, (8, 12));
    assert_eq!(Mosaic::OBJ_VERTICAL_INC, (12, 15));
    assert_eq!(WindowHorizontal::X1, (8, 15));
    assert_eq!(WindowHorizontal::X2, (0, 7));
    assert_eq!(Color::RED, (0, 4));
    assert_eq!(Color::GREEN, (5, 9));
    assert_eq!(Color::BLUE, (10, 14));
    assert_eq!(Soundbias::BIAS_LEVEL, (1, 9));
    assert_eq!(Soundbias::AMPLITUDE_RESOLUTION, (14, 15));
    assert_eq!(Sweep::SHIFT_NUM, (0, 2));
    assert_eq!(Sweep::DECREASING, 3);
    assert_eq!(Sweep::TIMER, (4, 6));
    assert_eq!(DMAControl::DEST_ADDRESS_CTRL, (5, 6));
    assert_eq!(DMAControl::SRC_ADDRESS_CTRL, (7, 8));
    assert_eq!(DMAControl::DMA_START_TIME, (12, 13));
    assert_eq!(DMAControl::DMA_ENABLE, 15);
    assert_eq!(TimerControl::TICK_RATE, (0, 1));
    assert_eq!(TimerControl::ENABLED, 7);
    assert_eq!(KeyControl::IRQ_ENABLED, 14);
    assert_eq!(InterruptEnable::GAME_PAK, 13);
    assert_eq!(OBJAttr1::COL_COORDINATE, (0, 8));
    assert_eq!(OBJAttr1::AFFINE_INDEX, (9, 13));
    assert_eq!(OBJAttr1::HFLIP, 12);
    assert_eq!(OBJAttr1::VFLIP, 13);
    assert_eq!(OBJAttr1::OBJ_SIZE, (14, 15));
    assert_eq!(OBJAttr2::TILE_ID, (0, 9));
    assert_eq!(OBJAttr2::PRIORITY, (10, 11));
    assert_eq!(OBJAttr2::PALBANK, (12, 15));
}

#[test]
fn accessors_read_and_write_through_their_descriptors() {
    for raw in [0x0000u16, 0xFFFF, 0xA5A5, 0x5A5A, 0x0F0F, 0x1234, 0x8001] {
        let status = DisplayStatus::from_raw(raw);
        assert_eq!(status.vcount_setting(), get_bits16(raw, DisplayStatus::VCOUNT_SETTING));
        assert_eq!(status.hblank_flag(), get_flag16(raw, DisplayStatus::HBLANK_FLAG));
        assert_eq!(
            status.with_vcount_setting(0x42).to_raw(),
            with_bits16(raw, DisplayStatus::VCOUNT_SETTING, 0x42)
        );
        let color = Color(raw);
        assert_eq!(color.red(), get_bits16(raw, Color::RED));
        assert_eq!(color.green(), get_bits16(raw, Color::GREEN));
        assert_eq!(color.blue(), get_bits16(raw, Color::BLUE));
        assert_eq!(color.red(), raw & 0x1F);
        assert_eq!(color.green(), (raw >> 5) & 0x1F);
        assert_eq!(color.blue(), (raw >> 10) & 0x1F);
    }
}

#[test]
fn descriptor_masks_of_a_register_are_disjoint() {
    let dma = [
        field_mask16(DMAControl::DEST_ADDRESS_CTRL),
        field_mask16(DMAControl::SRC_ADDRESS_CTRL),
        1 << DMAControl::DMA_REPEATS,
        1 << DMAControl::DMA_IS_32BIT,
        field_mask16(DMAControl::DMA_START_TIME),
        1 << DMAControl::IRQ_AT_END,
        1 << DMAControl::DMA_ENABLE,
    ];
    assert_eq!(dma, [0x0060, 0x0180, 0x0200, 0x0400, 0x3000, 0x4000, 0x8000]);
    for (i, a) in dma.iter().enumerate() {
        for (j, b) in dma.iter().enumerate() {
            if i != j {
                assert_eq!(a & b, 0);
            }
        }
    }
    let timer = [
        field_mask8(TimerControl::TICK_RATE),
        1 << TimerControl::CASCADE,
        1 << TimerControl::OVERFLOW_IRQ,
        1 << TimerControl::ENABLED,
    ];
    assert_eq!(timer, [0x03, 0x04, 0x40, 0x80]);
    let affine = field_mask16(OBJAttr1::AFFINE_INDEX);
    assert_ne!(affine & (1 << OBJAttr1::HFLIP), 0);
    assert_ne!(affine & (1 << OBJAttr1::VFLIP), 0);
    assert_eq!(affine & field_mask16(OBJAttr1::COL_COORDINATE), 0);
    assert_eq!(affine & field_mask16(OBJAttr1::OBJ_SIZE), 0);
}
