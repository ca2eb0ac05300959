use gba_hal::data::{
    BlendControl, ColorSpecialEffect, DMAControl, DMAMixer, DestAddressControl, DisplayControl,
    DisplayMode, DutyLenEnvelope, NonDMASoundVolume, OBJAttr0, OBJAttr1, ObjectMode, ObjectRender,
    ObjectShape, ObjectSize, PulseDutyPattern, SourceAddressControl, StartTiming, TimerControl,
    TimerTickRate, WaveLengthVolume, WaveVolume,
};

#[test]
fn display_mode_tags_and_values() {
    let tags = [
        DisplayMode::Mode0,
        DisplayMode::Mode1,
        DisplayMode::Mode2,
        DisplayMode::Mode3,
        DisplayMode::Mode4,
        DisplayMode::Mode5,
    ];
    for (value, tag) in tags.iter().enumerate() {
        assert_eq!(tag.to_raw(), value as u16);
        assert_eq!(DisplayMode::from_raw(value as u16), Some(*tag));
    }
    assert_eq!(DisplayMode::from_raw(6), None);
    assert_eq!(DisplayMode::from_raw(7), None);
    assert_eq!(DisplayMode::from_raw(0xFFFF), None);
}

#[test]
fn decoding_accepts_exactly_the_declared_values() {
    for raw in 0..=u16::MAX {
        assert_eq!(DisplayMode::from_raw(raw).is_some(), raw < 6);
        assert_eq!(ColorSpecialEffect::from_raw(raw).is_some(), raw < 4);
        assert_eq!(PulseDutyPattern::from_raw(raw).is_some(), raw < 4);
        assert_eq!(WaveVolume::from_raw(raw).is_some(), raw < 4);
        assert_eq!(NonDMASoundVolume::from_raw(raw).is_some(), raw < 3);
        assert_eq!(DestAddressControl::from_raw(raw).is_some(), raw < 4);
        assert_eq!(SourceAddressControl::from_raw(raw).is_some(), raw < 3);
        assert_eq!(StartTiming::from_raw(raw).is_some(), raw < 4);
        assert_eq!(ObjectRender::from_raw(raw).is_some(), raw < 4);
        assert_eq!(ObjectMode::from_raw(raw).is_some(), raw < 3);
        assert_eq!(ObjectShape::from_raw(raw).is_some(), raw < 3);
        assert_eq!(ObjectSize::from_raw(raw).is_some(), raw < 4);
    }
    for raw in 0..=u8::MAX {
        assert_eq!(TimerTickRate::from_raw(raw).is_some(), raw < 4);
    }
}

#[test]
fn decoded_tags_encode_back_to_the_same_value() {
    for raw in 0..8u16 {
        if let Some(tag) = DisplayMode::from_raw(raw) {
            assert_eq!(tag.to_raw(), raw);
        }
        if let Some(tag) = ColorSpecialEffect::from_raw(raw) {
            assert_eq!(tag.to_raw(), raw);
        }
        if let Some(tag) = PulseDutyPattern::from_raw(raw) {
            assert_eq!(tag.to_raw(), raw);
        }
        if let Some(tag) = WaveVolume::from_raw(raw) {
            assert_eq!(tag.to_raw(), raw);
        }
        if let Some(tag) = NonDMASoundVolume::from_raw(raw) {
            assert_eq!(tag.to_raw(), raw);
        }
        if let Some(tag) = DestAddressControl::from_raw(raw) {
            assert_eq!(tag.to_raw(), raw);
        }
        if let Some(tag) = SourceAddressControl::from_raw(raw) {
            assert_eq!(tag.to_raw(), raw);
        }
        if let Some(tag) = StartTiming::from_raw(raw) {
            assert_eq!(tag.to_raw(), raw);
        }
        if let Some(tag) = ObjectRender::from_raw(raw) {
            assert_eq!(tag.to_raw(), raw);
        }
        if let Some(tag) = ObjectMode::from_raw(raw) {
            assert_eq!(tag.to_raw(), raw);
        }
        if let Some(tag) = ObjectShape::from_raw(raw) {
            assert_eq!(tag.to_raw(), raw);
        }
        if let Some(tag) = ObjectSize::from_raw(raw) {
            assert_eq!(tag.to_raw(), raw);
        }
        if let Some(tag) = TimerTickRate::from_raw(raw as u8) {
            assert_eq!(tag.to_raw(), raw as u8);
        }
    }
}

#[test]
fn named_tags_have_their_declared_values() {
    assert_eq!(ColorSpecialEffect::NoEffect.to_raw(), 0);
    assert_eq!(ColorSpecialEffect::AlphaBlend.to_raw(), 1);
    assert_eq!(ColorSpecialEffect::BrightnessIncrease.to_raw(), 2);
    assert_eq!(ColorSpecialEffect::BrightnessDecrease.to_raw(), 3);
    assert_eq!(PulseDutyPattern::Eighth.to_raw(), 0);
    assert_eq!(PulseDutyPattern::ThreeQuarters.to_raw(), 3);
    assert_eq!(WaveVolume::Zero.to_raw(), 0);
    assert_eq!(WaveVolume::Full.to_raw(), 1);
    assert_eq!(WaveVolume::Half.to_raw(), 2);
    assert_eq!(WaveVolume::Quarter.to_raw(), 3);
    assert_eq!(NonDMASoundVolume::Quarter.to_raw(), 0);
    assert_eq!(NonDMASoundVolume::Half.to_raw(), 1);
    assert_eq!(NonDMASoundVolume::Full.to_raw(), 2);
    assert_eq!(DestAddressControl::IncrementReload.to_raw(), 3);
    assert_eq!(SourceAddressControl::Fixed.to_raw(), 2);
    assert_eq!(StartTiming::Immediately.to_raw(), 0);
    assert_eq!(StartTiming::VBlank.to_raw(), 1);
    assert_eq!(StartTiming::HBlank.to_raw(), 2);
    assert_eq!(StartTiming::Special.to_raw(), 3);
    assert_eq!(TimerTickRate::CPU1.to_raw(), 0);
    assert_eq!(TimerTickRate::CPU64.to_raw(), 1);
    assert_eq!(TimerTickRate::CPU256.to_raw(), 2);
    assert_eq!(TimerTickRate::CPU1024.to_raw(), 3);
    assert_eq!(ObjectRender::Normal.to_raw(), 0);
    assert_eq!(ObjectRender::Affine.to_raw(), 1);
    assert_eq!(ObjectRender::Disabled.to_raw(), 2);
    assert_eq!(ObjectRender::DoubleAreaAffine.to_raw(), 3);
    assert_eq!(ObjectMode::Normal.to_raw(), 0);
    assert_eq!(ObjectMode::SemiTransparent.to_raw(), 1);
    assert_eq!(ObjectMode::OBJWindow.to_raw(), 2);
    assert_eq!(ObjectShape::Square.to_raw(), 0);
    assert_eq!(ObjectShape::Horizontal.to_raw(), 1);
    assert_eq!(ObjectShape::Vertical.to_raw(), 2);
    assert_eq!(ObjectSize::Zero.to_raw(), 0);
    assert_eq!(ObjectSize::One.to_raw(), 1);
    assert_eq!(ObjectSize::Two.to_raw(), 2);
    assert_eq!(ObjectSize::Three.to_raw(), 3);
}

#[test]
fn two_bit_tag_field_at_bits_six_and_seven_scenario() {
    let top = DutyLenEnvelope::from_raw(0b1100_0000);
    assert_eq!(top.duty(), Some(PulseDutyPattern::ThreeQuarters));
    let second = DutyLenEnvelope::from_raw(0b0100_0000);
    assert_eq!(second.duty(), Some(PulseDutyPattern::Quarter));
    let rewritten = DutyLenEnvelope::from_raw(0b1100_0000).with_duty(PulseDutyPattern::Quarter);
    assert_eq!(rewritten.to_raw(), 0b0100_0000);
    assert_eq!(rewritten.duty(), Some(PulseDutyPattern::Quarter));
    let busy = DutyLenEnvelope::from_raw(0xFFFF).with_duty(PulseDutyPattern::Quarter);
    assert_eq!(busy.to_raw(), 0xFF7F);
    assert_eq!(busy.duty(), Some(PulseDutyPattern::Quarter));
    assert_eq!(busy.length(), 0x3F);
    assert_eq!(busy.initial_volume(), 0xF);

    let effect = BlendControl::from_raw(0b1100_0000);
    assert_eq!(effect.color_special_effect(), Some(ColorSpecialEffect::BrightnessDecrease));
    let effect = effect.with_color_special_effect(ColorSpecialEffect::AlphaBlend);
    assert_eq!(effect.to_raw(), 0b0100_0000);
    assert_eq!(effect.color_special_effect(), Some(ColorSpecialEffect::AlphaBlend));
}

#[test]
fn undeclared_patterns_are_reported_not_replaced() {
    assert_eq!(DisplayControl::from_raw(6).mode(), None);
    assert_eq!(DisplayControl::from_raw(7).mode(), None);
    assert_eq!(DisplayControl::from_raw(0xFFF8 | 5).mode(), Some(DisplayMode::Mode5));
    assert_eq!(DMAMixer::from_raw(3).non_dma_volume(), None);
    assert_eq!(DMAMixer::from_raw(2).non_dma_volume(), Some(NonDMASoundVolume::Full));
    assert_eq!(DMAControl::from_raw(0b1_1000_0000).src_address_ctrl(), None);
    assert_eq!(
        DMAControl::from_raw(0b1_0000_0000).src_address_ctrl(),
        Some(SourceAddressControl::Fixed)
    );
    assert_eq!(OBJAttr0::from_raw(0x0C00).obj_mode(), None);
    assert_eq!(OBJAttr0::from_raw(0xC000).obj_shape(), None);
    assert_eq!(OBJAttr0::from_raw(0x8000).obj_shape(), Some(ObjectShape::Vertical));
}

#[test]
fn fields_with_all_patterns_declared_always_decode() {
    for raw in 0..=u16::MAX {
        assert!(BlendControl::from_raw(raw).color_special_effect().is_some());
        assert!(WaveLengthVolume::from_raw(raw).volume().is_some());
        assert!(DMAControl::from_raw(raw).dest_address_ctrl().is_some());
        assert!(DMAControl::from_raw(raw).dma_start_time().is_some());
        assert!(OBJAttr0::from_raw(raw).obj_rendering().is_some());
        assert!(OBJAttr1::from_raw(raw).obj_size().is_some());
    }
    for raw in 0..=u8::MAX {
        assert!(TimerControl::from_raw(raw).tick_rate().is_some());
    }
}

#[test]
fn tag_setters_write_the_tag_value_in_place() {
    let ctrl = DMAControl::new()
        .with_dest_address_ctrl(DestAddressControl::IncrementReload)
        .with_src_address_ctrl(SourceAddressControl::Decrement)
        .with_dma_start_time(StartTiming::HBlank);
    assert_eq!(ctrl.to_raw(), (3 << 5) | (1 << 7) | (2 << 12));
    assert_eq!(ctrl.dest_address_ctrl(), Some(DestAddressControl::IncrementReload));
    assert_eq!(ctrl.src_address_ctrl(), Some(SourceAddressControl::Decrement));
    assert_eq!(ctrl.dma_start_time(), Some(StartTiming::HBlank));
    let wave = WaveLengthVolume::from_raw(0xFFFF).with_volume(WaveVolume::Full);
    assert_eq!(wave.to_raw(), 0xBFFF);
    let timer = TimerControl::from_raw(0xFF).with_tick_rate(TimerTickRate::CPU256);
    assert_eq!(timer.to_raw(), 0xFE);
    let attr = OBJAttr0::new()
        .with_obj_rendering(ObjectRender::DoubleAreaAffine)
        .with_obj_mode(ObjectMode::OBJWindow)
        .with_obj_shape(ObjectShape::Horizontal);
    assert_eq!(attr.to_raw(), (3 << 8) | (2 << 10) | (1 << 14));
    let size = OBJAttr1::new().with_obj_size(ObjectSize::Two);
    assert_eq!(size.to_raw(), 2 << 14);
}
