use rustic_yellow::cpu::{Authority, Cpu, CpuError};
use rustic_yellow::game::engine::menus::main_menu::{
    check_for_player_name_in_sram, count_ones, display_continue_game_info, init_options,
    main_menu, main_menu_select_save, prepare_memory, push_padded, read_num_owned_mons,
    read_player_name,
    InvalidNameByte, MainMenu, MenuError, MenuPhase, MenuRequest, MenuSymbols,
    DISPLAY_TITLE_SCREEN, MAIN_MENU_PRESSED_A, START_NEW_GAME,
};
use rustic_yellow::game::home::text::{TextError, EMPTY, SELECTED_ITEM};
use rustic_yellow::gpu::LayerHandle;
use rustic_yellow::input::{KeyboardEvent, KeyboardKey};
use rustic_yellow::keypad::KeypadWait;

const SYMBOLS: MenuSymbols =
    MenuSymbols { run_default_palette_command: 0x0200, predef: 0x0210, load_sav: 0x52 };

/// An image in which every routine that the menu runs returns at once.
fn image_for_menu() -> Vec<u8> {
    let mut rom = vec![0u8; 2 * 0x4000];
    rom[0x143] = 0x80;
    rom[0x147] = 0x1B;
    rom[0x149] = 0x03;
    for &routine in &[0x2233usize, 0x36A3, 0x3683, 0x0200, 0x0210, 0x5DF2] {
        rom[routine] = 0xC9;
    }
    rom
}

fn engine_for_menu() -> Cpu {
    Cpu::new(image_for_menu()).unwrap()
}

/// A save in whose bank 1 the player is called `name`, as bytes of the
/// binary's character set.
fn save_with_name(name: &[u8]) -> Vec<u8> {
    let mut image = vec![0u8; 0x8000];
    image[0x2598..0x2598 + name.len()].copy_from_slice(name);
    image
}

fn run_binary(cpu: &mut Cpu) {
    let mut guard = 0;
    while cpu.authority() != Authority::Native {
        cpu.do_cycle().unwrap();
        guard += 1;
        assert!(guard < 1000);
    }
}

/// Runs the binary as often as the menu asks for it, and returns the first
/// request of another kind.
fn drive(menu: &mut MainMenu, cpu: &mut Cpu, mut request: MenuRequest) -> MenuRequest {
    while request == MenuRequest::RunBinary {
        run_binary(cpu);
        request = menu.returned(cpu);
    }
    request
}

fn press(menu: &mut MainMenu, cpu: &mut Cpu, key: KeyboardKey) -> MenuRequest {
    let request = menu.key(cpu, KeypadWait::Event(KeyboardEvent::Down { key, shift: false }));
    drive(menu, cpu, request)
}

/// The menu on the screen, waiting for its first key.
fn shown_menu(has_saves: bool) -> (MainMenu, Cpu) {
    let mut cpu = engine_for_menu();
    let (mut menu, request) = main_menu(&mut cpu, SYMBOLS, has_saves);
    assert_eq!(request, MenuRequest::RunBinary);
    assert_eq!(menu.phase, MenuPhase::StoppingMusic);
    assert_eq!(drive(&mut menu, &mut cpu, request), MenuRequest::WaitKey);
    assert_eq!(menu.phase, MenuPhase::Choosing);
    (menu, cpu)
}

fn row_text(cpu: &Cpu, layer: LayerHandle, x: usize, y: usize, len: usize) -> Vec<Option<u8>> {
    (0..len).map(|i| cpu.gpu_layer(layer).cell(x + i, y)).collect()
}

fn tiles(text: &[u8]) -> Vec<Option<u8>> {
    text.iter().map(|t| Some(*t)).collect()
}

#[test]
fn options_get_their_defaults() {
    let mut cpu = engine_for_menu();
    cpu.write_byte(0xD357, 0xFF);
    init_options(&mut cpu);
    assert_eq!(cpu.read_byte(0xD357), 1);
    assert_eq!(cpu.read_byte(0xD354), 3);
    assert_eq!(cpu.read_byte(0xD497), 64);
}

#[test]
fn the_menu_prepares_the_memory() {
    let mut cpu = engine_for_menu();
    for addr in [0xD088u16, 0xD087, 0xD12A, 0xCC2D, 0xCC2E, 0xCC2F, 0xCC30, 0xD07B, 0xD72D] {
        cpu.write_byte(addr, 0xFF);
    }
    prepare_memory(&mut cpu, true);
    assert_eq!(cpu.read_byte(0xD088), 0);
    assert_eq!(cpu.read_byte(0xD087), 2);
    assert_eq!(cpu.read_byte(0xD12A), 0);
    for addr in [0xCC2Du16, 0xCC2E, 0xCC2F, 0xCC30, 0xD07B] {
        assert_eq!(cpu.read_byte(addr), 0);
    }
    assert_eq!(cpu.read_byte(0xD72D), 0xBF);
    prepare_memory(&mut cpu, false);
    assert_eq!(cpu.read_byte(0xD087), 1);
    assert_eq!(cpu.read_byte(0xD72D), 0xBF);
}

#[test]
fn the_player_name_is_read_from_the_save() {
    let mut cpu = engine_for_menu();
    assert!(cpu.replace_ram(save_with_name(&[0x91, 0x84, 0x83, 0x50, 0x80])));
    assert_eq!(read_player_name(&mut cpu), Ok("RED".to_string()));
    assert_eq!(check_for_player_name_in_sram(&mut cpu), "RED");
    // cartridge RAM is switched off again
    assert_eq!(cpu.read_byte(0xA598), 0xFF);
}

#[test]
fn names_are_made_of_letters_and_digits() {
    let mut cpu = engine_for_menu();
    cpu.replace_ram(save_with_name(&[0x80, 0x99, 0xA0, 0xB9, 0xF6, 0xFF, 0x50]));
    assert_eq!(check_for_player_name_in_sram(&mut cpu), "AZaz09");
}

#[test]
fn an_empty_name_is_a_name() {
    let mut cpu = engine_for_menu();
    cpu.replace_ram(save_with_name(&[0x50]));
    assert_eq!(check_for_player_name_in_sram(&mut cpu), "");
}

#[test]
fn a_name_without_terminator_ends_with_its_twelfth_byte() {
    let mut cpu = engine_for_menu();
    cpu.replace_ram(save_with_name(&[0x80; 13]));
    assert_eq!(check_for_player_name_in_sram(&mut cpu), "AAAAAAAAAAAA");
}

#[test]
fn an_invalid_byte_in_the_name_is_reported() {
    let mut cpu = engine_for_menu();
    cpu.replace_ram(save_with_name(&[0x80, 0x7F, 0x50]));
    assert_eq!(read_player_name(&mut cpu), Err(InvalidNameByte(0x7F)));
    assert_eq!(cpu.read_byte(0xA598), 0xFF);
    let mut cpu = engine_for_menu();
    assert_eq!(read_player_name(&mut cpu), Err(InvalidNameByte(0x00)));
}

#[test]
fn owned_species_are_counted_bit_by_bit() {
    let mut cpu = engine_for_menu();
    assert_eq!(read_num_owned_mons(&cpu), 0);
    cpu.write_byte(0xD2F6, 0xFF);
    cpu.write_byte(0xD2F7, 0x81);
    cpu.write_byte(0xD308, 0x10);
    cpu.write_byte(0xD309, 0xFF);
    cpu.write_byte(0xD2F5, 0xFF);
    assert_eq!(read_num_owned_mons(&cpu), 11);
}

#[test]
fn set_bits_are_counted() {
    assert_eq!(count_ones(0x00), 0);
    assert_eq!(count_ones(0x80), 1);
    assert_eq!(count_ones(0x5A), 4);
    assert_eq!(count_ones(0xFF), 8);
}

#[test]
fn numbers_are_filled_up_from_the_left() {
    let mut s = String::new();
    push_padded(&mut s, 5, 2, ' ');
    assert_eq!(s, " 5");
    push_padded(&mut s, 123, 2, ' ');
    assert_eq!(s, " 5123");
    let mut s = String::new();
    push_padded(&mut s, 7, 2, '0');
    push_padded(&mut s, 0, 3, ' ');
    push_padded(&mut s, 4294967295, 0, ' ');
    assert_eq!(s, "07  04294967295");
}

#[test]
fn the_menu_without_saves_has_two_items() {
    let (menu, cpu) = shown_menu(false);
    assert_eq!(cpu.gpu_layer_count(), 1);
    let layer = menu.menu_layer;
    assert_eq!(layer, LayerHandle { index: 0 });
    assert_eq!(row_text(&cpu, layer, 2, 2, 8), tiles(&[0x8D, 0x84, 0x96, 0x7F, 0x86, 0x80, 0x8C, 0x84]));
    assert_eq!(row_text(&cpu, layer, 2, 4, 6), tiles(&[0x8E, 0x8F, 0x93, 0x88, 0x8E, 0x8D]));
    assert_eq!(cpu.gpu_layer(layer).cell(1, 2), Some(SELECTED_ITEM));
    assert_eq!(cpu.gpu_layer(layer).cell(0, 5), Some(0x7D));
    assert_eq!(cpu.gpu_layer(layer).cell(14, 0), Some(0x7B));
    assert_eq!(cpu.gpu_layer(layer).cell(0, 6), None);
    assert_eq!(cpu.read_byte(0xD087), 1);
}

#[test]
fn the_menu_with_saves_offers_to_continue() {
    let (menu, cpu) = shown_menu(true);
    let layer = menu.menu_layer;
    assert_eq!(row_text(&cpu, layer, 2, 2, 8), tiles(&[0x82, 0x8E, 0x8D, 0x93, 0x88, 0x8D, 0x94, 0x84]));
    assert_eq!(row_text(&cpu, layer, 2, 6, 6), tiles(&[0x8E, 0x8F, 0x93, 0x88, 0x8E, 0x8D]));
    assert_eq!(cpu.gpu_layer(layer).cell(0, 7), Some(0x7D));
    assert_eq!(cpu.read_byte(0xD087), 2);
}

#[test]
fn the_cursor_moves_within_the_items() {
    let (mut menu, mut cpu) = shown_menu(false);
    let layer = menu.menu_layer;
    assert_eq!(press(&mut menu, &mut cpu, KeyboardKey::Up), MenuRequest::WaitKey);
    assert_eq!(menu.selected, 0);
    assert_eq!(press(&mut menu, &mut cpu, KeyboardKey::Down), MenuRequest::WaitKey);
    assert_eq!(menu.selected, 1);
    assert_eq!(cpu.gpu_layer(layer).cell(1, 2), Some(EMPTY));
    assert_eq!(cpu.gpu_layer(layer).cell(1, 4), Some(SELECTED_ITEM));
    assert_eq!(press(&mut menu, &mut cpu, KeyboardKey::Down), MenuRequest::WaitKey);
    assert_eq!(menu.selected, 1);
    assert_eq!(press(&mut menu, &mut cpu, KeyboardKey::Up), MenuRequest::WaitKey);
    assert_eq!(menu.selected, 0);
    assert_eq!(cpu.gpu_layer(layer).cell(1, 2), Some(SELECTED_ITEM));
    assert_eq!(cpu.gpu_layer(layer).cell(1, 4), Some(EMPTY));
}

#[test]
fn keys_that_mean_nothing_are_waited_out() {
    let (mut menu, mut cpu) = shown_menu(true);
    let before = menu;
    assert_eq!(press(&mut menu, &mut cpu, KeyboardKey::Q), MenuRequest::WaitKey);
    assert_eq!(menu.key(&mut cpu, KeypadWait::Pending), MenuRequest::WaitKey);
    let up = KeyboardEvent::Up { key: KeyboardKey::A, shift: false };
    assert_eq!(menu.key(&mut cpu, KeypadWait::Event(up)), MenuRequest::WaitKey);
    assert_eq!(menu, before);
}

#[test]
fn b_goes_back_to_the_title_screen() {
    let (mut menu, mut cpu) = shown_menu(true);
    assert_eq!(press(&mut menu, &mut cpu, KeyboardKey::B), MenuRequest::Done);
    assert_eq!(menu.phase, MenuPhase::Finished);
    assert_eq!(cpu.gpu_layer_count(), 0);
    assert_eq!(cpu.registers().pc, DISPLAY_TITLE_SCREEN);
    assert_eq!(cpu.authority(), Authority::Binary { return_pc: None });
}

#[test]
fn new_game_hands_over_to_the_binary() {
    let (mut menu, mut cpu) = shown_menu(false);
    assert_eq!(press(&mut menu, &mut cpu, KeyboardKey::A), MenuRequest::Done);
    assert_eq!(cpu.registers().pc, START_NEW_GAME);
    assert_eq!(cpu.gpu_layer_count(), 0);
    let (mut menu, mut cpu) = shown_menu(true);
    press(&mut menu, &mut cpu, KeyboardKey::Down);
    assert_eq!(press(&mut menu, &mut cpu, KeyboardKey::A), MenuRequest::Done);
    assert_eq!(cpu.registers().pc, START_NEW_GAME);
}

#[test]
fn option_runs_the_option_menu_and_returns_to_the_title_screen() {
    let (mut menu, mut cpu) = shown_menu(false);
    press(&mut menu, &mut cpu, KeyboardKey::Down);
    let request = menu.key(
        &mut cpu,
        KeypadWait::Event(KeyboardEvent::Down { key: KeyboardKey::A, shift: false }),
    );
    assert_eq!(request, MenuRequest::RunBinary);
    assert_eq!(menu.phase, MenuPhase::Options);
    assert_eq!(cpu.registers().pc, 0x5DF2);
    assert_eq!(cpu.gpu_layer_count(), 0);
    assert_eq!(cpu.read_byte(0xD088), 0);
    assert_eq!(drive(&mut menu, &mut cpu, request), MenuRequest::Done);
    assert_eq!(cpu.read_byte(0xD088), 1);
    assert_eq!(cpu.registers().pc, DISPLAY_TITLE_SCREEN);
}

#[test]
fn continue_lists_the_saves() {
    let (mut menu, mut cpu) = shown_menu(true);
    assert_eq!(press(&mut menu, &mut cpu, KeyboardKey::A), MenuRequest::ListSaves);
    assert_eq!(menu.phase, MenuPhase::ListingSaves);
    let names = vec!["RED".to_string(), "BLUE 2".to_string()];
    assert_eq!(menu.saves(&mut cpu, Some(&names)), MenuRequest::WaitKey);
    assert_eq!(menu.phase, MenuPhase::ChoosingSave);
    assert_eq!(menu.save_count, 2);
    assert_eq!(cpu.gpu_layer_count(), 2);
    let layer = menu.saves_layer;
    assert_eq!(row_text(&cpu, layer, 2, 2, 3), tiles(&[0x91, 0x84, 0x83]));
    assert_eq!(row_text(&cpu, layer, 2, 4, 6), tiles(&[0x81, 0x8B, 0x94, 0x84, 0x7F, 0xF8]));
    assert_eq!(cpu.gpu_layer(layer).cell(1, 2), Some(SELECTED_ITEM));
    assert_eq!(cpu.gpu_layer(layer).cell(19, 5), Some(0x7E));
    assert_eq!(press(&mut menu, &mut cpu, KeyboardKey::Down), MenuRequest::WaitKey);
    assert_eq!(press(&mut menu, &mut cpu, KeyboardKey::Down), MenuRequest::WaitKey);
    assert_eq!(menu.save_selected, 1);
    assert_eq!(press(&mut menu, &mut cpu, KeyboardKey::A), MenuRequest::ReadSave(1));
}

#[test]
fn an_empty_list_of_saves_leaves_the_menu_on_the_screen() {
    let (mut menu, mut cpu) = shown_menu(true);
    press(&mut menu, &mut cpu, KeyboardKey::A);
    assert_eq!(menu.saves(&mut cpu, Some(&Vec::new())), MenuRequest::WaitKey);
    assert_eq!(menu.phase, MenuPhase::Choosing);
    assert_eq!(cpu.gpu_layer_count(), 1);
}

#[test]
fn a_failed_listing_is_a_listing_without_saves() {
    let (mut menu, mut cpu) = shown_menu(true);
    press(&mut menu, &mut cpu, KeyboardKey::A);
    let ram = cpu.dump_ram();
    assert_eq!(menu.saves(&mut cpu, None), MenuRequest::WaitKey);
    assert_eq!(menu.phase, MenuPhase::Choosing);
    assert_eq!(cpu.gpu_layer_count(), 1);
    assert_eq!(cpu.dump_ram(), ram);
    let mut cpu = engine_for_menu();
    assert_eq!(main_menu_select_save(&mut cpu, None), Ok(None));
    assert_eq!(main_menu_select_save(&mut cpu, Some(&Vec::new())), Ok(None));
    assert_eq!(cpu.gpu_layer_count(), 0);
}

#[test]
fn the_list_shows_eight_saves_at_most() {
    let mut cpu = engine_for_menu();
    let names: Vec<String> = (0..10).map(|i| format!("SAVE {}", i)).collect();
    let handle = main_menu_select_save(&mut cpu, Some(&names)).unwrap().unwrap();
    assert_eq!(cpu.gpu_layer(handle).cell(7, 16), Some(0xFD));
    assert_eq!(cpu.gpu_layer(handle).cell(0, 17), Some(0x7D));
    assert_eq!(cpu.gpu_layer(handle).cell(2, 17), Some(0x7A));
}

#[test]
fn a_save_name_that_cannot_be_written_ends_the_menu() {
    let (mut menu, mut cpu) = shown_menu(true);
    press(&mut menu, &mut cpu, KeyboardKey::A);
    let names = vec!["RED".to_string(), "a_b".to_string(), "#".to_string()];
    assert_eq!(
        menu.saves(&mut cpu, Some(&names)),
        MenuRequest::Failed(MenuError::Text(TextError::NoTile('_')))
    );
    assert_eq!(menu.phase, MenuPhase::Finished);
    assert_eq!(cpu.gpu_layer_count(), 1);
    let mut cpu = engine_for_menu();
    let long = vec!["ABCDEFGHIJKLMNOPQRS".to_string()];
    assert_eq!(main_menu_select_save(&mut cpu, Some(&long)), Err(TextError::OutOfBounds));
}

#[test]
fn a_chosen_save_is_loaded_and_summarised() {
    let (mut menu, mut cpu) = shown_menu(true);
    press(&mut menu, &mut cpu, KeyboardKey::A);
    menu.saves(&mut cpu, Some(&vec!["RED".to_string()]));
    assert_eq!(press(&mut menu, &mut cpu, KeyboardKey::A), MenuRequest::ReadSave(0));
    cpu.write_byte(0xD355, 0x07);
    cpu.write_byte(0xD2F6, 0xFF);
    cpu.write_byte(0xD2F7, 0x03);
    cpu.write_byte(0xDA40, 12);
    cpu.write_byte(0xDA42, 5);
    let request = menu.save_image(&mut cpu, save_with_name(&[0x91, 0x84, 0x83, 0x50]));
    assert_eq!(request, MenuRequest::RunBinary);
    assert_eq!(cpu.registers().a, 0x52);
    assert_eq!(cpu.registers().pc, 0x0210);
    assert_eq!(drive(&mut menu, &mut cpu, request), MenuRequest::WaitKey);
    assert_eq!(menu.phase, MenuPhase::Confirming);
    assert_eq!(cpu.gpu_layer_count(), 3);
    let layer = menu.info_layer;
    assert_eq!(row_text(&cpu, layer, 5, 9, 6), tiles(&[0x8F, 0x8B, 0x80, 0x98, 0x84, 0x91]));
    assert_eq!(row_text(&cpu, layer, 12, 9, 3), tiles(&[0x91, 0x84, 0x83]));
    assert_eq!(row_text(&cpu, layer, 17, 11, 2), tiles(&[0x7F, 0xF9]));
    assert_eq!(row_text(&cpu, layer, 5, 13, 7), tiles(&[0x8F, 0x8E, 0x8A, 0xBA, 0x83, 0x84, 0x97]));
    assert_eq!(row_text(&cpu, layer, 16, 13, 3), tiles(&[0x7F, 0xF7, 0xF6]));
    assert_eq!(row_text(&cpu, layer, 13, 15, 6), tiles(&[0x7F, 0xF7, 0xF8, 0x9C, 0xF6, 0xFB]));
    assert_eq!(cpu.gpu_layer(layer).cell(4, 7), Some(0x79));
    assert_eq!(cpu.gpu_layer(layer).cell(19, 16), Some(0x7E));
    assert_eq!(press(&mut menu, &mut cpu, KeyboardKey::A), MenuRequest::Done);
    assert_eq!(cpu.registers().pc, MAIN_MENU_PRESSED_A);
    assert_eq!(cpu.gpu_layer_count(), 0);
}

#[test]
fn b_on_the_summary_goes_back_to_the_list() {
    let (mut menu, mut cpu) = shown_menu(true);
    press(&mut menu, &mut cpu, KeyboardKey::A);
    menu.saves(&mut cpu, Some(&vec!["RED".to_string()]));
    press(&mut menu, &mut cpu, KeyboardKey::A);
    let request = menu.save_image(&mut cpu, save_with_name(&[0x91, 0x50]));
    drive(&mut menu, &mut cpu, request);
    assert_eq!(press(&mut menu, &mut cpu, KeyboardKey::Left), MenuRequest::WaitKey);
    assert_eq!(press(&mut menu, &mut cpu, KeyboardKey::B), MenuRequest::WaitKey);
    assert_eq!(menu.phase, MenuPhase::ChoosingSave);
    assert_eq!(cpu.gpu_layer_count(), 2);
    assert_eq!(press(&mut menu, &mut cpu, KeyboardKey::B), MenuRequest::WaitKey);
    assert_eq!(menu.phase, MenuPhase::Choosing);
    assert_eq!(cpu.gpu_layer_count(), 1);
}

#[test]
fn a_save_of_the_wrong_size_ends_the_menu() {
    let (mut menu, mut cpu) = shown_menu(true);
    press(&mut menu, &mut cpu, KeyboardKey::A);
    menu.saves(&mut cpu, Some(&vec!["RED".to_string()]));
    press(&mut menu, &mut cpu, KeyboardKey::A);
    assert_eq!(
        menu.save_image(&mut cpu, vec![0u8; 100]),
        MenuRequest::Failed(MenuError::SaveImage)
    );
    assert_eq!(menu.phase, MenuPhase::Finished);
}

#[test]
fn a_save_without_a_valid_name_is_not_summarised() {
    let mut cpu = engine_for_menu();
    cpu.replace_ram(save_with_name(&[0x91, 0x00]));
    assert_eq!(
        display_continue_game_info(&mut cpu),
        Err(MenuError::Name(InvalidNameByte(0x00)))
    );
    let mut long = vec![0x80u8; 9];
    long.push(0x50);
    cpu.replace_ram(save_with_name(&long));
    assert_eq!(
        display_continue_game_info(&mut cpu),
        Err(MenuError::Text(TextError::OutOfBounds))
    );
    assert_eq!(cpu.gpu_layer_count(), 0);
    let mut name = vec![0x80u8; 8];
    name.push(0x50);
    cpu.replace_ram(save_with_name(&name));
    assert_eq!(display_continue_game_info(&mut cpu), Ok(LayerHandle { index: 0 }));
}

/// The menu with the summary of a save on the screen.
fn shown_summary() -> (MainMenu, Cpu) {
    let (mut menu, mut cpu) = shown_menu(true);
    press(&mut menu, &mut cpu, KeyboardKey::A);
    menu.saves(&mut cpu, Some(&vec!["RED".to_string()]));
    press(&mut menu, &mut cpu, KeyboardKey::A);
    let request = menu.save_image(&mut cpu, save_with_name(&[0x91, 0x50]));
    assert_eq!(drive(&mut menu, &mut cpu, request), MenuRequest::WaitKey);
    assert_eq!(menu.phase, MenuPhase::Confirming);
    assert_eq!(cpu.gpu_layer_count(), 3);
    (menu, cpu)
}

#[test]
fn escape_and_the_end_of_the_queue_end_the_menu() {
    let (mut menu, mut cpu) = shown_menu(true);
    assert_eq!(press(&mut menu, &mut cpu, KeyboardKey::Escape), MenuRequest::Aborted);
    assert_eq!(menu.phase, MenuPhase::Finished);
    assert_eq!(cpu.gpu_layer_count(), 0);
    let (mut menu, mut cpu) = shown_menu(true);
    assert_eq!(menu.key(&mut cpu, KeypadWait::Closed), MenuRequest::Aborted);
    assert_eq!(menu.phase, MenuPhase::Finished);
    assert_eq!(cpu.authority(), Authority::Native);
    assert_eq!(cpu.gpu_layer_count(), 0);
}

#[test]
fn the_end_of_the_session_pops_every_layer_of_the_menu() {
    // a layer of somebody else below those of the menu stays
    let mut cpu = engine_for_menu();
    cpu.gpu_push_layer();
    let (mut menu, request) = main_menu(&mut cpu, SYMBOLS, true);
    drive(&mut menu, &mut cpu, request);
    press(&mut menu, &mut cpu, KeyboardKey::A);
    menu.saves(&mut cpu, Some(&vec!["RED".to_string()]));
    assert_eq!(cpu.gpu_layer_count(), 3);
    assert_eq!(press(&mut menu, &mut cpu, KeyboardKey::Escape), MenuRequest::Aborted);
    assert_eq!(cpu.gpu_layer_count(), 1);

    let (mut menu, mut cpu) = shown_summary();
    assert_eq!(press(&mut menu, &mut cpu, KeyboardKey::Escape), MenuRequest::Aborted);
    assert_eq!(menu.phase, MenuPhase::Finished);
    assert_eq!(cpu.gpu_layer_count(), 0);

    let (mut menu, mut cpu) = shown_summary();
    assert_eq!(menu.key(&mut cpu, KeypadWait::Closed), MenuRequest::Aborted);
    assert_eq!(cpu.gpu_layer_count(), 0);

    // while the host lists or reads, the layers are up as well
    let (mut menu, mut cpu) = shown_menu(true);
    press(&mut menu, &mut cpu, KeyboardKey::A);
    assert_eq!(menu.phase, MenuPhase::ListingSaves);
    assert_eq!(menu.key(&mut cpu, KeypadWait::Closed), MenuRequest::Aborted);
    assert_eq!(cpu.gpu_layer_count(), 0);

    // before the menu is shown there is nothing to pop
    let mut cpu = engine_for_menu();
    let (mut menu, _) = main_menu(&mut cpu, SYMBOLS, true);
    assert_eq!(menu.key(&mut cpu, KeypadWait::Closed), MenuRequest::Aborted);
    assert_eq!(cpu.gpu_layer_count(), 0);
}

#[test]
fn the_end_of_the_session_notices_a_foreign_layer() {
    let (mut menu, mut cpu) = shown_summary();
    cpu.gpu_push_layer();
    assert_eq!(
        press(&mut menu, &mut cpu, KeyboardKey::Escape),
        MenuRequest::Failed(MenuError::Layers)
    );
    assert_eq!(cpu.gpu_layer_count(), 4);
}

#[test]
fn a_save_that_cannot_be_read_leaves_the_list_on_the_screen() {
    let (mut menu, mut cpu) = shown_menu(true);
    press(&mut menu, &mut cpu, KeyboardKey::A);
    menu.saves(&mut cpu, Some(&vec!["RED".to_string(), "BLUE".to_string()]));
    press(&mut menu, &mut cpu, KeyboardKey::Down);
    assert_eq!(press(&mut menu, &mut cpu, KeyboardKey::A), MenuRequest::ReadSave(1));
    let ram = cpu.dump_ram();
    let regs = cpu.registers();
    assert_eq!(menu.save_unreadable(&mut cpu), MenuRequest::WaitKey);
    assert_eq!(menu.phase, MenuPhase::ChoosingSave);
    assert_eq!(menu.save_selected, 1);
    assert_eq!(cpu.dump_ram(), ram);
    assert_eq!(cpu.registers(), regs);
    assert_eq!(cpu.gpu_layer_count(), 2);
    assert_eq!(cpu.authority(), Authority::Native);
    // the list goes on as before
    assert_eq!(press(&mut menu, &mut cpu, KeyboardKey::Up), MenuRequest::WaitKey);
    assert_eq!(press(&mut menu, &mut cpu, KeyboardKey::A), MenuRequest::ReadSave(0));
    // and only after a save was asked for can one be unreadable
    let (mut menu, mut cpu) = shown_menu(true);
    assert_eq!(menu.save_unreadable(&mut cpu), MenuRequest::Failed(MenuError::Unexpected));
}

#[test]
fn the_summary_stays_inside_its_box() {
    let (mut menu, mut cpu) = shown_menu(true);
    press(&mut menu, &mut cpu, KeyboardKey::A);
    menu.saves(&mut cpu, Some(&vec!["RED".to_string()]));
    press(&mut menu, &mut cpu, KeyboardKey::A);
    cpu.write_byte(0xFF47, 0xE4);
    for addr in 0x8800u16..0x9800 {
        cpu.write_byte(addr, 0xFF);
    }
    cpu.write_byte(0xD355, 0xFF);
    cpu.write_byte(0xDA40, 255);
    cpu.write_byte(0xDA42, 255);
    let mut name = vec![0x80u8; 8];
    name.push(0x50);
    let request = menu.save_image(&mut cpu, save_with_name(&name));
    let before = cpu.gpu_update_screen();
    assert_eq!(drive(&mut menu, &mut cpu, request), MenuRequest::WaitKey);
    let with_summary = cpu.gpu_update_screen();
    let mut changed = 0;
    for y in 0..144 {
        for x in 0..160 {
            let at = (y * 160 + x) * 3;
            let inside = (4..=19).contains(&(x / 8)) && (7..=16).contains(&(y / 8));
            if !inside {
                assert_eq!(with_summary[at], before[at], "at {},{}", x, y);
            } else if with_summary[at] != before[at] {
                changed += 1;
            }
        }
    }
    assert!(changed > 0);
    assert_eq!(press(&mut menu, &mut cpu, KeyboardKey::B), MenuRequest::WaitKey);
    assert_eq!(cpu.gpu_update_screen(), before);
}

#[test]
fn what_the_menu_did_not_wait_for_ends_it() {
    let (mut menu, mut cpu) = shown_menu(true);
    assert_eq!(menu.returned(&mut cpu), MenuRequest::Failed(MenuError::Unexpected));
    let (mut menu, mut cpu) = shown_menu(true);
    assert_eq!(
        menu.saves(&mut cpu, Some(&vec!["RED".to_string()])),
        MenuRequest::Failed(MenuError::Unexpected)
    );
    let (mut menu, mut cpu) = shown_menu(true);
    assert_eq!(menu.start(&mut cpu, true), MenuRequest::Failed(MenuError::Unexpected));
    let (mut menu, mut cpu) = shown_menu(true);
    assert_eq!(
        menu.save_image(&mut cpu, vec![0u8; 0x8000]),
        MenuRequest::Failed(MenuError::Unexpected)
    );
    let mut cpu = engine_for_menu();
    let mut menu = MainMenu::new(SYMBOLS);
    assert_eq!(
        press(&mut menu, &mut cpu, KeyboardKey::A),
        MenuRequest::Failed(MenuError::Unexpected)
    );
}

#[test]
fn a_foreign_layer_on_top_is_noticed() {
    let (mut menu, mut cpu) = shown_menu(true);
    cpu.gpu_push_layer();
    assert_eq!(
        press(&mut menu, &mut cpu, KeyboardKey::Down),
        MenuRequest::Failed(MenuError::Layers)
    );
    assert_eq!(cpu.gpu_layer_count(), 2);
}

#[test]
fn the_menu_cannot_start_while_the_binary_is_in_control() {
    let mut cpu = engine_for_menu();
    cpu.jump(0x0150).unwrap();
    let (menu, request) = main_menu(&mut cpu, SYMBOLS, false);
    assert_eq!(request, MenuRequest::Failed(MenuError::Cpu(CpuError::NotNative)));
    assert_eq!(menu.phase, MenuPhase::Finished);
}
