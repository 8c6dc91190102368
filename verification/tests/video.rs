use gba::Gba;
use gba::video::marker::Affine;
use gba::video::marker::Tiled;
use gba::video::mmio::DISPCNT_ADDR;
use gba::video::AffineBgSize;
use gba::video::BackgroundControl;
use gba::video::Bg;
use gba::video::DisplayControl;
use gba::video::Layers;
use gba::video::Mode0;
use gba::video::Mode3;
use gba::video::PaletteMode;
use gba::video::TiledBgSize;
use gba::video::m3_pixel_address;

#[test]
fn new_display_control_is_zero() {
    assert_eq!(DisplayControl::new().to_bits(), 0);
}

#[test]
fn from_bits_keeps_the_raw_value() {
    assert_eq!(DisplayControl::from_bits(0xABCD).to_bits(), 0xABCD);
}

#[test]
fn enable_layers_sets_the_layer_enable_field() {
    let cnt = DisplayControl::new().enable_layers(Layers(Layers::BG2));
    assert_eq!(cnt.to_bits(), 1 << 10);
}

#[test]
fn enable_layers_accumulates() {
    let cnt = DisplayControl::new()
        .enable_layers(Layers(Layers::BG0 | Layers::OBJ))
        .enable_layers(Layers(Layers::BG3));
    assert_eq!(cnt.to_bits(), (1 << 8) | (1 << 11) | (1 << 12));
}

#[test]
fn enable_layers_masks_flags_beyond_the_field() {
    // The object-window flag carries a bit beyond the five-bit
    // layer-enable field; the field operation masks it away rather than
    // letting it corrupt a neighbouring field.
    let cnt = DisplayControl::new().enable_layers(Layers(Layers::OBJ_WIN));
    assert_eq!(cnt.to_bits(), 1 << 12);
}

#[test]
fn mode_switch_returns_the_mode_identifier() {
    let gba = Gba::new_unchecked();
    let (display, bits) = gba.display.mode::<Mode3>();
    assert_eq!(bits, 3);
    let (_, bits0) = display.mode::<Mode0>();
    assert_eq!(bits0, 0);
}

#[test]
fn control_write_encodes_the_active_mode() {
    let gba = Gba::new_unchecked();
    let (mut display, _) = gba.display.mode::<Mode3>();
    let bits = display
        .control
        .write(DisplayControl::new().enable_layers(Layers(Layers::BG2)));
    assert_eq!(bits, (1 << 10) | 3);
}

#[test]
fn control_write_overwrites_the_mode_select_field() {
    let gba = Gba::new_unchecked();
    let (mut display, _) = gba.display.mode::<Mode3>();
    let bits = display.control.write(DisplayControl::from_bits(0xFFFF));
    assert_eq!(bits, (0xFFFF & !7) | 3);
}

#[test]
fn unconfigured_mode_writes_mode_zero() {
    let mut gba = Gba::new_unchecked();
    let bits = gba.display.control.write(DisplayControl::from_bits(0x0407));
    assert_eq!(bits, 0x0400);
}

#[test]
fn mode_switch_round_trip_has_no_hidden_state() {
    // Switching mode zero to mode three and back, with no intervening
    // field writes, leaves a handle whose control writes produce exactly
    // the bit pattern a never-switched handle produces for the same
    // field writes.
    let gba = Gba::new_unchecked();
    let (mut stayed, _) = gba.display.mode::<Mode0>();
    let direct = stayed
        .control
        .write(DisplayControl::new().enable_layers(Layers(Layers::BG1)));

    let gba = Gba::new_unchecked();
    let (switched_away, _) = gba.display.mode::<Mode0>();
    let (and_back, _) = switched_away.mode::<Mode3>();
    let (mut returned, _) = and_back.mode::<Mode0>();
    let round_trip = returned
        .control
        .write(DisplayControl::new().enable_layers(Layers(Layers::BG1)));

    assert_eq!(direct, round_trip);
}

#[test]
fn display_control_register_address() {
    assert_eq!(DISPCNT_ADDR, 0x0400_0000);
}

#[test]
fn tiled_background_control_builder() {
    let cnt = BackgroundControl::<Tiled>::new()
        .size(TiledBgSize::_512x512)
        .graphics_block(2)
        .map_block(13)
        .priority(1)
        .enable_mosaic(true)
        .palette_mode(PaletteMode::Single);
    assert_eq!(cnt.to_bits(), 0xCDC9);
}

#[test]
fn tiled_size_field_alone() {
    let cnt = BackgroundControl::<Tiled>::new().size(TiledBgSize::_256x512);
    assert_eq!(cnt.to_bits(), 1 << 14);
}

#[test]
fn tiled_setters_overwrite_their_field() {
    let cnt = BackgroundControl::<Tiled>::new().priority(3).priority(1);
    assert_eq!(cnt.to_bits(), 1);
}

#[test]
fn affine_setters_are_inert_placeholders() {
    let cnt = BackgroundControl::<Affine>::new()
        .size(AffineBgSize::_1024x1024)
        .graphics_block(3)
        .map_block(31)
        .priority(3)
        .enable_mosaic(true);
    assert_eq!(cnt.to_bits(), 0);
}

#[test]
fn write_control_targets_the_layer_register() {
    let cnt = BackgroundControl::<Tiled>::new().priority(3);
    let (addr, bits) = Bg::<2, Tiled>::write_control(cnt);
    assert_eq!(addr, 0x0400_000C);
    assert_eq!(bits, 3);

    let cnt = BackgroundControl::<Tiled>::new();
    let (addr, _) = Bg::<0, Tiled>::write_control(cnt);
    assert_eq!(addr, 0x0400_0008);
}

#[test]
fn mode3_pixel_addresses() {
    assert_eq!(m3_pixel_address(0, 0), 0x0600_0000);
    assert_eq!(m3_pixel_address(120, 80), 0x0600_0000 + 2 * (120 + 80 * 240));
    assert_eq!(m3_pixel_address(239, 159), 0x0600_0000 + 2 * (239 + 159 * 240));
}
