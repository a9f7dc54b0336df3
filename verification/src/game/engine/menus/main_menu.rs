//! The main menu, and what it reads from a saved game to show it.

use vstd::prelude::*;
use vstd::string::StrSliceExecFns;
use crate::cpu::alu::{bit, bit_is_set, set_bit, test_bit, with_bit};
use crate::cpu::{Cpu, CpuError, CpuModel};
use crate::game::constants::serial_constants::LINK_STATE_NONE;
use crate::game::home::text::{
    lemma_tiles_of, place_string, text_box_border, text_fault, tile_of, tiles_of, with_box,
    with_tiles, first_without_tile, TextError, EMPTY, SELECTED_ITEM,
};
use crate::gpu::layer::{Layer, LayerModel};
use crate::gpu::LayerHandle;
use crate::input::{KeyboardEvent, KeyboardKey};
use crate::keypad::KeypadWait;
use crate::game::constants::hardware_constants::{
    MBC1_SRAM_BANK, MBC1_SRAM_BANKING_MODE, MBC1_SRAM_ENABLE, SRAM_DISABLE, SRAM_ENABLE,
};
use crate::game::constants::misc_constants::{TEXT_DELAY_FAST, TEXT_DELAY_MEDIUM};
use crate::game::constants::text_constants::{NAME_LENGTH, TERMINATOR};
use crate::game::home::text::{name_char, name_char_of, push_char};
use crate::game::ram::sram::S_PLAYER_NAME;
use crate::game::ram::wram::{
    W_D72E, W_DEFAULT_MAP, W_LETTER_PRINTING_DELAY_FLAGS, W_LINK_STATE, W_OBTAINED_BADGES,
    W_OPTIONS, W_OPTIONS_INITIALIZED, W_PARTY_AND_BILLS_PC_SAVED_MENU_ITEM, W_PLAY_TIME_HOURS,
    W_PLAY_TIME_MINUTES, W_POKEDEX_OWNED, W_POKEDEX_OWNED_END, W_PRINTER_SETTINGS,
    W_SAVE_FILE_STATUS,
};
use crate::mmu::MemoryModel;

verus! {

/// A byte of the saved name that is neither a letter, a digit nor the
/// terminator.
#[derive(Clone, Copy, Debug, PartialEq, Eq, Structural)]
pub struct InvalidNameByte(pub u8);

/// The memory with another memory in place of its own.
pub open spec fn with_memory(c: CpuModel, mem: MemoryModel) -> CpuModel {
    c.with_machine(c.machine.with_mem(mem))
}

/// The memory after the options have been set to their defaults.
pub open spec fn options_initialised(mem: MemoryModel) -> MemoryModel {
    mem.write(W_LETTER_PRINTING_DELAY_FLAGS, TEXT_DELAY_FAST).write(
        W_OPTIONS,
        TEXT_DELAY_MEDIUM,
    ).write(W_PRINTER_SETTINGS, 64)
}

/// Sets the options to their defaults: fast printing of single letters,
/// medium text speed, and the printer's standard setting.
pub fn init_options(cpu: &mut Cpu)
    requires
        old(cpu)@.wf(),
    ensures
        final(cpu)@ == with_memory(old(cpu)@, options_initialised(old(cpu)@.machine.mem)),
        final(cpu)@.wf(),
{
    cpu.write_byte(W_LETTER_PRINTING_DELAY_FLAGS, TEXT_DELAY_FAST);
    cpu.write_byte(W_OPTIONS, TEXT_DELAY_MEDIUM);
    cpu.write_byte(W_PRINTER_SETTINGS, 64);
}

/// The memory with cartridge RAM switched on and its bank 1 in the
/// window.
pub open spec fn sram_opened(mem: MemoryModel) -> MemoryModel {
    mem.write(MBC1_SRAM_ENABLE, SRAM_ENABLE).write(MBC1_SRAM_BANKING_MODE, 1).write(
        MBC1_SRAM_BANK,
        1,
    )
}

/// The memory with cartridge RAM switched off and the simple mode back.
pub open spec fn sram_closed(mem: MemoryModel) -> MemoryModel {
    mem.write(MBC1_SRAM_ENABLE, SRAM_DISABLE).write(MBC1_SRAM_BANKING_MODE, 0)
}

/// The name that the bytes from the one numbered `i` on spell, behind
/// what `so_far` holds: it ends before the terminator, or with the twelfth
/// byte. A byte that is no letter, digit or terminator is an error.
pub open spec fn name_from(mem: MemoryModel, i: nat, so_far: Seq<char>) -> Result<
    Seq<char>,
    InvalidNameByte,
>
    decreases 12 - i,
{
    if i >= 12 {
        Ok(so_far)
    } else {
        let byte = mem.read((S_PLAYER_NAME + i) as u16);
        if byte == TERMINATOR {
            Ok(so_far)
        } else {
            match name_char_of(byte) {
                Some(c) => name_from(mem, i + 1, so_far.push(c)),
                None => Err(InvalidNameByte(byte)),
            }
        }
    }
}

/// The player's name as the saved game holds it.
pub open spec fn player_name(mem: MemoryModel) -> Result<Seq<char>, InvalidNameByte> {
    name_from(sram_opened(mem), 0, Seq::empty())
}

/// Reading the name leaves the name as it is: what the reading changes
/// of the bank controller, the next reading sets anew.
pub proof fn lemma_name_survives_reading(mem: MemoryModel)
    requires
        mem.wf(),
    ensures
        sram_closed(sram_opened(mem)).wf(),
        player_name(sram_closed(sram_opened(mem))) == player_name(mem),
{
    assert(sram_opened(sram_closed(sram_opened(mem))) == sram_opened(mem));
}

/// Reads the player's name from a saved game that holds one: the bytes of
/// the name have to be letters and digits up to the terminator or the
/// twelfth byte. `read_player_name` reads from any saved game and tells
/// whether it holds a name. Cartridge RAM is switched on for the reading
/// and off again after it.
pub fn check_for_player_name_in_sram(cpu: &mut Cpu) -> (out: String)
    requires
        old(cpu)@.wf(),
        player_name(old(cpu)@.machine.mem).is_ok(),
    ensures
        Ok::<Seq<char>, InvalidNameByte>(out@) == player_name(old(cpu)@.machine.mem),
        final(cpu)@ == with_memory(
            old(cpu)@,
            sram_closed(sram_opened(old(cpu)@.machine.mem)),
        ),
        final(cpu)@.wf(),
{
    match read_player_name(cpu) {
        Ok(name) => name,
        Err(_) => vstd::pervasive::unreached(),
    }
}

/// Reads the player's name from the saved game, or finds the first byte
/// of it that is neither a letter, a digit nor the terminator. Cartridge
/// RAM is switched on for the reading and off again after it, whatever was
/// read.
pub fn read_player_name(cpu: &mut Cpu) -> (out: Result<String, InvalidNameByte>)
    requires
        old(cpu)@.wf(),
    ensures
        match player_name(old(cpu)@.machine.mem) {
            Ok(name) => out matches Ok(s) && s@ == name,
            Err(e) => out == Err::<String, InvalidNameByte>(e),
        },
        final(cpu)@ == with_memory(
            old(cpu)@,
            sram_closed(sram_opened(old(cpu)@.machine.mem)),
        ),
        final(cpu)@.wf(),
{
    cpu.write_byte(MBC1_SRAM_ENABLE, SRAM_ENABLE);
    cpu.write_byte(MBC1_SRAM_BANKING_MODE, 1);
    cpu.write_byte(MBC1_SRAM_BANK, 1);

    let mut result: String = String::new();
    let mut fault: Option<InvalidNameByte> = None;
    let mut i: u16 = 0;
    let mut done: bool = false;
    while i <= NAME_LENGTH && !done
        invariant
            cpu@.wf(),
            cpu@ == with_memory(old(cpu)@, sram_opened(old(cpu)@.machine.mem)),
            i <= NAME_LENGTH + 1,
            !done ==> fault.is_none() && player_name(old(cpu)@.machine.mem) == name_from(
                cpu@.machine.mem,
                i as nat,
                result@,
            ),
            done ==> match fault {
                Some(e) => player_name(old(cpu)@.machine.mem) == Err::<Seq<char>, InvalidNameByte>(
                    e,
                ),
                None => player_name(old(cpu)@.machine.mem) == Ok::<Seq<char>, InvalidNameByte>(
                    result@,
                ),
            },
        decreases NAME_LENGTH + 1 - i + (if done { 0int } else { 1 }),
    {
        let byte: u8 = cpu.read_byte(S_PLAYER_NAME + i);
        if byte == TERMINATOR {
            done = true;
        } else {
            match name_char(byte) {
                Some(c) => {
                    push_char(&mut result, c);
                    i += 1;
                },
                None => {
                    fault = Some(InvalidNameByte(byte));
                    done = true;
                },
            }
        }
    }

    cpu.write_byte(MBC1_SRAM_ENABLE, SRAM_DISABLE);
    cpu.write_byte(MBC1_SRAM_BANKING_MODE, 0);

    match fault {
        Some(e) => Err(e),
        None => Ok(result),
    }
}

/// The number of bits that are set in `byte`.
pub open spec fn ones(byte: u8) -> nat {
    (bit(test_bit(byte, 0)) + bit(test_bit(byte, 1)) + bit(test_bit(byte, 2)) + bit(
        test_bit(byte, 3),
    ) + bit(test_bit(byte, 4)) + bit(test_bit(byte, 5)) + bit(test_bit(byte, 6)) + bit(
        test_bit(byte, 7),
    )) as nat
}

/// The number of bits that are set in `byte`.
pub fn count_ones(byte: u8) -> (out: u32)
    ensures
        out == ones(byte),
        out <= 8,
{
    let mut out: u32 = 0;
    if bit_is_set(byte, 0) {
        out += 1;
    }
    if bit_is_set(byte, 1) {
        out += 1;
    }
    if bit_is_set(byte, 2) {
        out += 1;
    }
    if bit_is_set(byte, 3) {
        out += 1;
    }
    if bit_is_set(byte, 4) {
        out += 1;
    }
    if bit_is_set(byte, 5) {
        out += 1;
    }
    if bit_is_set(byte, 6) {
        out += 1;
    }
    if bit_is_set(byte, 7) {
        out += 1;
    }
    out
}

/// The number of bits set in the bytes from `from` up to, not including,
/// `to`.
pub open spec fn ones_between(mem: MemoryModel, from: int, to: int) -> nat
    decreases to - from,
{
    if from >= to {
        0
    } else {
        ones_between(mem, from, to - 1) + ones(mem.read((to - 1) as u16))
    }
}

/// The number of species that the player owns: one bit for each in the
/// table of owned species.
pub fn read_num_owned_mons(cpu: &Cpu) -> (out: u32)
    requires
        cpu@.wf(),
    ensures
        out == ones_between(cpu@.machine.mem, W_POKEDEX_OWNED as int, W_POKEDEX_OWNED_END as int),
        out <= 152,
{
    let mut num_owned: u32 = 0;
    let mut addr: u16 = W_POKEDEX_OWNED;
    while addr < W_POKEDEX_OWNED_END
        invariant
            cpu@.wf(),
            W_POKEDEX_OWNED <= addr <= W_POKEDEX_OWNED_END,
            num_owned == ones_between(cpu@.machine.mem, W_POKEDEX_OWNED as int, addr as int),
            num_owned <= 8 * (addr - W_POKEDEX_OWNED),
        decreases W_POKEDEX_OWNED_END - addr,
    {
        let byte: u8 = cpu.read_byte(addr);
        num_owned += count_ones(byte);
        addr += 1;
    }
    num_owned
}

/// The character of a decimal digit.
pub open spec fn digit_char(d: int) -> char
    recommends
        0 <= d < 10,
{
    ('0' as u8 + d) as char
}

/// The decimal digits of `n`, the most significant first.
pub open spec fn decimal(n: nat) -> Seq<char>
    decreases n,
{
    if n < 10 {
        seq![digit_char(n as int)]
    } else {
        decimal(n / 10).push(digit_char((n % 10) as int))
    }
}

/// The digits of `n` behind as many copies of `fill` as it takes to reach
/// `width` characters.
pub open spec fn padded(n: nat, width: nat, fill: char) -> Seq<char> {
    let digits = decimal(n);
    if digits.len() >= width {
        digits
    } else {
        Seq::new((width - digits.len()) as nat, |i: int| fill) + digits
    }
}

/// The number of decimal digits of `n`.
pub fn decimal_len(n: u32) -> (out: usize)
    ensures
        out == decimal(n as nat).len(),
        1 <= out <= 10,
    decreases n,
{
    if n < 10 {
        1
    } else {
        let rest: usize = decimal_len(n / 10);
        proof {
            lemma_decimal_len(n as nat);
        }
        rest + 1
    }
}

/// A number below ten to the power of ten has at most ten digits.
pub proof fn lemma_decimal_len(n: nat)
    requires
        n <= u32::MAX,
    ensures
        decimal(n).len() <= 10,
{
    reveal_with_fuel(decimal, 11);
}

/// Appends the decimal digits of `n` to `s`.
pub fn push_decimal(s: &mut String, n: u32)
    ensures
        final(s)@ == old(s)@ + decimal(n as nat),
    decreases n,
{
    if n >= 10 {
        push_decimal(s, n / 10);
    }
    push_char(s, ('0' as u8 + (n % 10) as u8) as char);
    proof {
        if n >= 10 {
            assert(s@ =~= old(s)@ + decimal(n as nat));
        } else {
            assert(s@ =~= old(s)@ + decimal(n as nat));
        }
    }
}

/// Appends `n` to `s` in at least `width` characters, filled up from the
/// left with `fill`.
pub fn push_padded(s: &mut String, n: u32, width: usize, fill: char)
    ensures
        final(s)@ == old(s)@ + padded(n as nat, width as nat, fill),
{
    let len: usize = decimal_len(n);
    let mut k: usize = len;
    while k < width
        invariant
            len <= k,
            len == decimal(n as nat).len(),
            k <= width || k == len,
            s@ == old(s)@ + Seq::new((k - len) as nat, |i: int| fill),
        decreases width - k,
    {
        push_char(s, fill);
        assert(s@ =~= old(s)@ + Seq::new((k + 1 - len) as nat, |i: int| fill));
        k += 1;
    }
    let ghost before = s@;
    push_decimal(s, n);
    proof {
        if len >= width {
            assert(before =~= old(s)@);
        } else {
            assert(s@ =~= old(s)@ + padded(n as nat, width as nat, fill));
        }
    }
}

/// The memory as the main menu wants it before it shows itself: the
/// options at their defaults and marked as not yet chosen, the state of
/// the saved game noted, no link, the remembered menu positions and the
/// default map cleared, and the link feature switched off.
pub open spec fn menu_prepared(mem: MemoryModel, has_saves: bool) -> MemoryModel {
    let m = options_initialised(mem).write(W_OPTIONS_INITIALIZED, 0).write(
        W_SAVE_FILE_STATUS,
        if has_saves { 2u8 } else { 1u8 },
    ).write(W_LINK_STATE, LINK_STATE_NONE).write(W_PARTY_AND_BILLS_PC_SAVED_MENU_ITEM, 0).write(
        (W_PARTY_AND_BILLS_PC_SAVED_MENU_ITEM + 1) as u16,
        0,
    ).write((W_PARTY_AND_BILLS_PC_SAVED_MENU_ITEM + 2) as u16, 0).write(
        (W_PARTY_AND_BILLS_PC_SAVED_MENU_ITEM + 3) as u16,
        0,
    ).write(W_DEFAULT_MAP, 0);
    m.write(W_D72E, with_bit(m.read(W_D72E), 6, false))
}

/// Prepares the memory for the main menu.
pub fn prepare_memory(cpu: &mut Cpu, has_saves: bool)
    requires
        old(cpu)@.wf(),
    ensures
        final(cpu)@ == with_memory(old(cpu)@, menu_prepared(old(cpu)@.machine.mem, has_saves)),
        final(cpu)@.wf(),
{
    init_options(cpu);
    cpu.write_byte(W_OPTIONS_INITIALIZED, 0);
    cpu.write_byte(W_SAVE_FILE_STATUS, if has_saves { 2 } else { 1 });
    cpu.write_byte(W_LINK_STATE, LINK_STATE_NONE);
    cpu.write_byte(W_PARTY_AND_BILLS_PC_SAVED_MENU_ITEM, 0);
    cpu.write_byte(W_PARTY_AND_BILLS_PC_SAVED_MENU_ITEM + 1, 0);
    cpu.write_byte(W_PARTY_AND_BILLS_PC_SAVED_MENU_ITEM + 2, 0);
    cpu.write_byte(W_PARTY_AND_BILLS_PC_SAVED_MENU_ITEM + 3, 0);
    cpu.write_byte(W_DEFAULT_MAP, 0);
    let v: u8 = cpu.read_byte(W_D72E);
    cpu.write_byte(W_D72E, set_bit(v, 6, false));
}

/// Whether every character of `text` has a tile.
pub open spec fn all_have_tiles(text: Seq<char>) -> bool {
    forall|i: int| 0 <= i < text.len() ==> (#[trigger] tile_of(text[i])).is_some()
}

/// Where every character has a tile, none is the first without one.
pub proof fn lemma_all_have_tiles(text: Seq<char>)
    requires
        all_have_tiles(text),
    ensures
        first_without_tile(text).is_none(),
        tiles_of(text).is_some(),
    decreases text.len(),
{
    if text.len() > 0 {
        assert forall|i: int| 0 <= i < text.drop_last().len() implies (#[trigger] tile_of(
            text.drop_last()[i],
        )).is_some() by {
            assert(text.drop_last()[i] == text[i]);
        }
        lemma_all_have_tiles(text.drop_last());
        assert(tile_of(text[text.len() - 1]).is_some());
    }
    lemma_tiles_of(text);
}

/// The layer with `text` in row `y` from column `x` on.
pub open spec fn with_text(l: LayerModel, x: int, y: int, text: Seq<char>) -> LayerModel {
    with_tiles(l, x, y, tiles_of(text).unwrap())
}

/// Writes a text of which it is known that it fits and that each of its
/// characters has a tile.
pub fn place_label(layer: &mut Layer, x: usize, y: usize, text: &str)
    requires
        old(layer)@.wf(),
        y < 18,
        x + text@.len() <= 20,
        all_have_tiles(text@),
    ensures
        final(layer)@ == with_text(old(layer)@, x as int, y as int, text@),
        final(layer)@.wf(),
{
    proof {
        lemma_all_have_tiles(text@);
    }
    let placed = place_string(layer, x, y, text);
    assert(placed.is_ok());
}

/// The row of the menu item with the number `item`.
pub open spec fn item_row(item: int) -> int {
    item * 2 + 2
}

/// The layer that shows the main menu: a box with the items in every
/// second row, and CONTINUE as the first of them where a game is saved.
pub open spec fn main_menu_layer(has_saves: bool) -> LayerModel {
    if has_saves {
        with_text(
            with_text(
                with_text(with_box(LayerModel::blank(), 0, 0, 13, 6), 2, 2, "CONTINUE"@),
                2,
                4,
                "NEW GAME"@,
            ),
            2,
            6,
            "OPTION"@,
        )
    } else {
        with_text(
            with_text(with_box(LayerModel::blank(), 0, 0, 13, 4), 2, 2, "NEW GAME"@),
            2,
            4,
            "OPTION"@,
        )
    }
}

/// The layer with the cursor in front of the item `item`.
pub open spec fn with_cursor(l: LayerModel, item: int) -> LayerModel {
    l.with_cell(1, item_row(item), Some(SELECTED_ITEM))
}

/// The layer with a blank in front of the item `item`.
pub open spec fn without_cursor(l: LayerModel, item: int) -> LayerModel {
    l.with_cell(1, item_row(item), Some(EMPTY))
}

/// The engine with the layer `layer` pushed.
pub open spec fn with_pushed(c: CpuModel, layer: LayerModel) -> CpuModel {
    CpuModel {
        gpu: c.gpu.push_layer().with_layer(c.gpu.layers.len() as int, layer),
        ..c
    }
}

/// The engine with its topmost layer replaced.
pub open spec fn with_top(c: CpuModel, layer: LayerModel) -> CpuModel {
    CpuModel { gpu: c.gpu.with_layer(c.gpu.layers.len() - 1, layer), ..c }
}

/// The engine without its topmost layer.
pub open spec fn with_popped(c: CpuModel) -> CpuModel {
    CpuModel { gpu: c.gpu.pop_layer(), ..c }
}

/// The letters of the three items have tiles.
pub proof fn lemma_item_texts()
    ensures
        "CONTINUE"@.len() == 8 && all_have_tiles("CONTINUE"@),
        "NEW GAME"@.len() == 8 && all_have_tiles("NEW GAME"@),
        "OPTION"@.len() == 6 && all_have_tiles("OPTION"@),
{
    reveal_strlit("CONTINUE");
    reveal_strlit("NEW GAME");
    reveal_strlit("OPTION");
}

/// Pushes the layer of the main menu, with the cursor at the first item.
pub fn draw_main_menu(cpu: &mut Cpu, has_saves: bool) -> (handle: LayerHandle)
    requires
        old(cpu)@.wf(),
    ensures
        handle.index == old(cpu)@.gpu.layers.len(),
        final(cpu)@ == with_pushed(old(cpu)@, with_cursor(main_menu_layer(has_saves), 0)),
        final(cpu)@.wf(),
{
    proof {
        lemma_item_texts();
    }
    let handle = cpu.gpu_push_layer();
    let layer = cpu.gpu_mut_layer(handle);
    if has_saves {
        text_box_border(layer, 0, 0, 13, 6);
        place_label(layer, 2, 2, "CONTINUE");
        place_label(layer, 2, 4, "NEW GAME");
        place_label(layer, 2, 6, "OPTION");
    } else {
        text_box_border(layer, 0, 0, 13, 4);
        place_label(layer, 2, 2, "NEW GAME");
        place_label(layer, 2, 4, "OPTION");
    }
    layer.set_background(1, 2, SELECTED_ITEM);
    proof {
        assert(cpu@.gpu.layers =~= with_pushed(
            old(cpu)@,
            with_cursor(main_menu_layer(has_saves), 0),
        ).gpu.layers);
    }
    handle
}

/// Moves the cursor of the topmost layer from the item `from` to the item
/// `to`.
pub fn move_cursor(cpu: &mut Cpu, from: usize, to: usize)
    requires
        old(cpu)@.wf(),
        old(cpu)@.gpu.layers.len() > 0,
        from < 8,
        to < 8,
    ensures
        final(cpu)@ == with_top(
            old(cpu)@,
            with_cursor(without_cursor(old(cpu)@.gpu.layers.last(), from as int), to as int),
        ),
        final(cpu)@.wf(),
{
    let handle = LayerHandle { index: cpu.gpu_layer_count() - 1 };
    let layer = cpu.gpu_mut_layer(handle);
    layer.set_background(1, from * 2 + 2, EMPTY);
    layer.set_background(1, to * 2 + 2, SELECTED_ITEM);
}

/// The save files that one page of the list shows.
pub const SAVES_ON_A_PAGE: usize = 8;

/// The first fault among the first `n` names of a list of saves, each
/// name placed in the row of its item.
pub open spec fn names_fault(names: Seq<Seq<char>>, n: int) -> Option<TextError>
    decreases n,
{
    if n <= 0 {
        None
    } else {
        match names_fault(names, n - 1) {
            Some(e) => Some(e),
            None => text_fault(2, item_row(n - 1), names[n - 1]),
        }
    }
}

/// The layer of a list of `count` saves with the first `n` names
/// written.
pub open spec fn save_list_layer(names: Seq<Seq<char>>, count: int, n: int) -> LayerModel
    decreases n,
{
    if n <= 0 {
        with_box(LayerModel::blank(), 0, 0, 18, 2 * count)
    } else {
        with_text(save_list_layer(names, count, n - 1), 2, item_row(n - 1), names[n - 1])
    }
}

/// The names of the saves as texts.
pub open spec fn texts_of(names: Seq<String>) -> Seq<Seq<char>> {
    Seq::new(names.len(), |i: int| names[i]@)
}

/// The number of saves that the list shows of `len` saves.
pub open spec fn shown(len: int) -> int {
    if len < 8 {
        len
    } else {
        8
    }
}

/// The fault of `text` placed at (`x`, `y`), if it has one.
pub fn check_text(x: usize, y: usize, text: &str) -> (out: Option<TextError>)
    ensures
        out == text_fault(x as int, y as int, text@),
{
    let mut probe = Layer::new();
    match place_string(&mut probe, x, y, text) {
        Ok(()) => None,
        Err(e) => Some(e),
    }
}

/// The names of a listing of saves as texts; a listing that has failed is
/// taken as one without saves.
pub open spec fn listed(listing: Option<&Vec<String>>) -> Seq<Seq<char>> {
    match listing {
        Some(names) => texts_of(names@),
        None => Seq::empty(),
    }
}

/// Shows the saves to select from: pushes the layer that lists the names
/// of `listing`, at most eight of them, with the cursor at the first, and
/// returns its handle. Where the listing has failed or holds no save there
/// is nothing to select from: nothing is pushed and no handle returned.
/// Where a name cannot be written nothing is pushed either.
pub fn main_menu_select_save(cpu: &mut Cpu, listing: Option<&Vec<String>>) -> (out: Result<
    Option<LayerHandle>,
    TextError,
>)
    requires
        old(cpu)@.wf(),
    ensures
        listed(listing).len() == 0 ==> out == Ok::<Option<LayerHandle>, TextError>(None)
            && final(cpu)@ == old(cpu)@,
        listed(listing).len() > 0 ==> match names_fault(
            listed(listing),
            shown(listed(listing).len() as int),
        ) {
            Some(e) => out == Err::<Option<LayerHandle>, TextError>(e) && final(cpu)@ == old(
                cpu,
            )@,
            None => out matches Ok(Some(handle)) && handle.index == old(cpu)@.gpu.layers.len()
                && final(cpu)@ == with_pushed(
                old(cpu)@,
                with_cursor(
                    save_list_layer(
                        listed(listing),
                        shown(listed(listing).len() as int),
                        shown(listed(listing).len() as int),
                    ),
                    0,
                ),
            ),
        },
        final(cpu)@.wf(),
{
    let names: &Vec<String> = match listing {
        Some(names) => names,
        None => {
            return Ok(None);
        },
    };
    if names.len() == 0 {
        return Ok(None);
    }
    let count: usize = if names.len() < SAVES_ON_A_PAGE { names.len() } else { SAVES_ON_A_PAGE };
    let ghost texts = texts_of(names@);
    let mut i: usize = 0;
    while i < count
        invariant
            i <= count <= names@.len(),
            count <= 8,
            count == shown(names@.len() as int),
            texts == texts_of(names@),
            texts == listed(listing),
            names@.len() > 0,
            cpu@ == old(cpu)@,
            cpu@.wf(),
            names_fault(texts, i as int).is_none(),
        decreases count - i,
    {
        match check_text(2, i * 2 + 2, names[i].as_str()) {
            Some(e) => {
                proof {
                    assert(texts[i as int] == names@[i as int]@);
                    assert(item_row(i as int) == i * 2 + 2);
                    assert(names_fault(texts, i + 1) == Some(e));
                    lemma_names_fault_stays(texts, i + 1, count as int);
                }
                return Err(e);
            },
            None => {},
        }
        i += 1;
    }
    let handle = cpu.gpu_push_layer();
    let layer = cpu.gpu_mut_layer(handle);
    text_box_border(layer, 0, 0, 18, count * 2);
    let mut k: usize = 0;
    while k < count
        invariant
            k <= count <= names@.len(),
            count <= 8,
            texts == texts_of(names@),
            texts == listed(listing),
            names@.len() > 0,
            names_fault(texts, count as int).is_none(),
            layer@.wf(),
            layer@ == save_list_layer(texts, count as int, k as int),
        decreases count - k,
    {
        proof {
            lemma_names_fault_none(texts, count as int, k as int);
            assert(texts[k as int] == names@[k as int]@);
            assert(item_row(k as int) == k * 2 + 2);
        }
        let placed = place_string(layer, 2, k * 2 + 2, names[k].as_str());
        assert(placed.is_ok());
        k += 1;
    }
    layer.set_background(1, 2, SELECTED_ITEM);
    proof {
        assert(cpu@.gpu.layers =~= with_pushed(
            old(cpu)@,
            with_cursor(save_list_layer(texts, count as int, count as int), 0),
        ).gpu.layers);
    }
    Ok(Some(handle))
}

/// A fault among the first names is the first fault among more names.
pub proof fn lemma_names_fault_stays(names: Seq<Seq<char>>, n: int, more: int)
    requires
        0 <= n <= more,
        names_fault(names, n).is_some(),
    ensures
        names_fault(names, more) == names_fault(names, n),
    decreases more - n,
{
    if n < more {
        lemma_names_fault_stays(names, n, more - 1);
    }
}

/// Where a list of names has no fault, none of the names has one.
pub proof fn lemma_names_fault_none(names: Seq<Seq<char>>, n: int, k: int)
    requires
        0 <= k < n,
        names_fault(names, n).is_none(),
    ensures
        text_fault(2, item_row(k), names[k]).is_none(),
    decreases n,
{
    if k < n - 1 {
        lemma_names_fault_none(names, n - 1, k);
    }
}

/// What the menu shows of a saved game before it is continued.
pub struct SaveSummary {
    pub name: String,
    pub badges: u32,
    pub owned: u32,
    pub hours: u8,
    pub minutes: u8,
}

/// The mathematical content of a `SaveSummary`.
pub struct SaveSummaryModel {
    pub name: Seq<char>,
    pub badges: nat,
    pub owned: nat,
    pub hours: u8,
    pub minutes: u8,
}

impl View for SaveSummary {
    type V = SaveSummaryModel;

    open spec fn view(&self) -> SaveSummaryModel {
        SaveSummaryModel {
            name: self.name@,
            badges: self.badges as nat,
            owned: self.owned as nat,
            hours: self.hours,
            minutes: self.minutes,
        }
    }
}

/// The summary of the saved game in `mem`.
pub open spec fn summary_of(mem: MemoryModel) -> Result<SaveSummaryModel, InvalidNameByte> {
    match player_name(mem) {
        Err(e) => Err(e),
        Ok(name) => {
            let after = sram_closed(sram_opened(mem));
            Ok(
                SaveSummaryModel {
                    name,
                    badges: ones(after.read(W_OBTAINED_BADGES)),
                    owned: ones_between(
                        after,
                        W_POKEDEX_OWNED as int,
                        W_POKEDEX_OWNED_END as int,
                    ),
                    hours: after.read(W_PLAY_TIME_HOURS),
                    minutes: after.read(W_PLAY_TIME_MINUTES),
                },
            )
        },
    }
}

/// Reads the summary of the saved game that has been loaded.
pub fn read_summary(cpu: &mut Cpu) -> (out: Result<SaveSummary, InvalidNameByte>)
    requires
        old(cpu)@.wf(),
    ensures
        match summary_of(old(cpu)@.machine.mem) {
            Ok(summary) => out matches Ok(s) && s@ == summary && s.badges <= 8 && s.owned <= 152,
            Err(e) => out == Err::<SaveSummary, InvalidNameByte>(e),
        },
        final(cpu)@ == with_memory(
            old(cpu)@,
            sram_closed(sram_opened(old(cpu)@.machine.mem)),
        ),
        final(cpu)@.wf(),
{
    let name = read_player_name(cpu);
    let badges: u32 = count_ones(cpu.read_byte(W_OBTAINED_BADGES));
    let owned: u32 = read_num_owned_mons(cpu);
    let hours: u8 = cpu.read_byte(W_PLAY_TIME_HOURS);
    let minutes: u8 = cpu.read_byte(W_PLAY_TIME_MINUTES);
    match name {
        Ok(name) => Ok(SaveSummary { name, badges, owned, hours, minutes }),
        Err(e) => Err(e),
    }
}

/// `n` in at least `width` characters, filled up with blanks.
pub open spec fn number_text(n: nat, width: nat) -> Seq<char> {
    padded(n, width, ' ')
}

/// The play time as hours, a colon, and minutes in two digits.
pub open spec fn time_text(hours: u8, minutes: u8) -> Seq<char> {
    padded(hours as nat, 3, ' ').push(':') + padded(minutes as nat, 2, '0')
}

/// The layer that shows a summary.
pub open spec fn summary_layer(s: SaveSummaryModel) -> LayerModel {
    let boxed = with_box(LayerModel::blank(), 4, 7, 14, 8);
    let player = with_text(with_text(boxed, 5, 9, "PLAYER"@), 12, 9, s.name);
    let badges = with_text(
        with_text(player, 5, 11, "BADGES"@),
        17,
        11,
        number_text(s.badges, 2),
    );
    let owned = with_text(
        with_text(badges, 5, 13, "POK\u{e9}DEX"@),
        16,
        13,
        number_text(s.owned, 3),
    );
    with_text(with_text(owned, 5, 15, "TIME"@), 13, 15, time_text(s.hours, s.minutes))
}

/// Whether a summary can be shown: its name has to fit into its field and
/// to be made of characters that have tiles, and its numbers have to fit
/// into theirs.
pub open spec fn summary_fits(s: SaveSummaryModel) -> bool {
    s.name.len() <= 8 && all_have_tiles(s.name) && s.badges < 100 && s.owned < 1000
}

/// Digits have tiles.
pub proof fn lemma_decimal_has_tiles(n: nat)
    ensures
        all_have_tiles(decimal(n)),
    decreases n,
{
    if n >= 10 {
        lemma_decimal_has_tiles(n / 10);
        assert forall|i: int| 0 <= i < decimal(n).len() implies (#[trigger] tile_of(
            decimal(n)[i],
        )).is_some() by {
            if i < decimal(n / 10).len() {
                assert(decimal(n)[i] == decimal(n / 10)[i]);
            }
        }
    }
}

/// A number filled up with blanks or zeros has tiles.
pub proof fn lemma_padded_has_tiles(n: nat, width: nat, fill: char)
    requires
        fill == ' ' || fill == '0',
    ensures
        all_have_tiles(padded(n, width, fill)),
{
    lemma_decimal_has_tiles(n);
    let digits = decimal(n);
    if digits.len() < width {
        let lead = Seq::new((width - digits.len()) as nat, |i: int| fill);
        assert forall|i: int| 0 <= i < padded(n, width, fill).len() implies (#[trigger] tile_of(
            padded(n, width, fill)[i],
        )).is_some() by {
            if i < lead.len() {
                assert(padded(n, width, fill)[i] == fill);
            } else {
                assert(padded(n, width, fill)[i] == digits[i - lead.len()]);
            }
        }
    }
}

/// The number of digits of small numbers.
pub proof fn lemma_decimal_small(n: nat)
    ensures
        n < 10 ==> decimal(n).len() == 1,
        10 <= n < 100 ==> decimal(n).len() == 2,
        100 <= n < 1000 ==> decimal(n).len() == 3,
{
    reveal_with_fuel(decimal, 4);
}

/// The texts of the labels of a summary have tiles.
pub proof fn lemma_summary_labels()
    ensures
        "PLAYER"@.len() == 6 && all_have_tiles("PLAYER"@),
        "BADGES"@.len() == 6 && all_have_tiles("BADGES"@),
        "POK\u{e9}DEX"@.len() == 7 && all_have_tiles("POK\u{e9}DEX"@),
        "TIME"@.len() == 4 && all_have_tiles("TIME"@),
{
    reveal_strlit("PLAYER");
    reveal_strlit("BADGES");
    reveal_strlit("POK\u{e9}DEX");
    reveal_strlit("TIME");
}

/// Pushes the layer that shows the summary `s`.
pub fn draw_summary(cpu: &mut Cpu, s: &SaveSummary) -> (handle: LayerHandle)
    requires
        old(cpu)@.wf(),
        summary_fits(s@),
    ensures
        handle.index == old(cpu)@.gpu.layers.len(),
        final(cpu)@ == with_pushed(old(cpu)@, summary_layer(s@)),
        final(cpu)@.wf(),
{
    let mut badges = String::new();
    push_padded(&mut badges, s.badges, 2, ' ');
    let mut owned = String::new();
    push_padded(&mut owned, s.owned, 3, ' ');
    let mut time = String::new();
    push_padded(&mut time, s.hours as u32, 3, ' ');
    push_char(&mut time, ':');
    push_padded(&mut time, s.minutes as u32, 2, '0');
    proof {
        lemma_summary_labels();
        lemma_padded_has_tiles(s.badges as nat, 2, ' ');
        lemma_padded_has_tiles(s.owned as nat, 3, ' ');
        lemma_padded_has_tiles(s.hours as nat, 3, ' ');
        lemma_padded_has_tiles(s.minutes as nat, 2, '0');
        lemma_decimal_small(s.badges as nat);
        lemma_decimal_small(s.owned as nat);
        lemma_decimal_small(s.hours as nat);
        lemma_decimal_small(s.minutes as nat);
        assert(badges@ =~= number_text(s.badges as nat, 2));
        assert(owned@ =~= number_text(s.owned as nat, 3));
        assert(time@ =~= time_text(s.hours, s.minutes));
        let hours = padded(s.hours as nat, 3, ' ');
        let minutes = padded(s.minutes as nat, 2, '0');
        assert forall|i: int| 0 <= i < time@.len() implies (#[trigger] tile_of(
            time@[i],
        )).is_some() by {
            if i < hours.len() {
                assert(time@[i] == hours[i]);
            } else if i == hours.len() {
                assert(time@[i] == ':');
            } else {
                assert(time@[i] == minutes[i - hours.len() - 1]);
            }
        }
    }
    let handle = cpu.gpu_push_layer();
    let layer = cpu.gpu_mut_layer(handle);
    text_box_border(layer, 4, 7, 14, 8);
    place_label(layer, 5, 9, "PLAYER");
    place_label(layer, 12, 9, s.name.as_str());
    place_label(layer, 5, 11, "BADGES");
    place_label(layer, 17, 11, badges.as_str());
    place_label(layer, 5, 13, "POK\u{e9}DEX");
    place_label(layer, 16, 13, owned.as_str());
    place_label(layer, 5, 15, "TIME");
    place_label(layer, 13, 15, time.as_str());
    proof {
        assert(cpu@.gpu.layers =~= with_pushed(old(cpu)@, summary_layer(s@)).gpu.layers);
    }
    handle
}

/// The name that a saved game holds is made of letters and digits, which
/// have tiles.
pub proof fn lemma_name_has_tiles(mem: MemoryModel, i: nat, so_far: Seq<char>)
    requires
        all_have_tiles(so_far),
    ensures
        name_from(mem, i, so_far) matches Ok(name) ==> all_have_tiles(name),
    decreases 12 - i,
{
    if i < 12 {
        let byte = mem.read((S_PLAYER_NAME + i) as u16);
        if byte != TERMINATOR {
            match name_char_of(byte) {
                Some(c) => {
                    assert(tile_of(c).is_some());
                    assert forall|k: int| 0 <= k < so_far.push(c).len() implies (#[trigger] tile_of(
                        so_far.push(c)[k],
                    )).is_some() by {
                        if k < so_far.len() {
                            assert(so_far.push(c)[k] == so_far[k]);
                        }
                    }
                    lemma_name_has_tiles(mem, i + 1, so_far.push(c));
                },
                None => {},
            }
        }
    }
}

/// A text leaves alone every cell but those of its row that it covers.
pub proof fn lemma_text_is_local(l: LayerModel, x: int, y: int, text: Seq<char>, cx: int, cy: int)
    requires
        l.wf(),
        all_have_tiles(text),
        0 <= cx < 20,
        0 <= cy < 18,
        !(cy == y && x <= cx < x + text.len()),
    ensures
        with_text(l, x, y, text).wf(),
        with_text(l, x, y, text).cell(cx, cy) == l.cell(cx, cy),
{
    lemma_all_have_tiles(text);
    lemma_tiles_of(text);
}

/// A box leaves alone every cell outside it.
pub proof fn lemma_box_is_local(l: LayerModel, x: int, y: int, w: int, h: int, cx: int, cy: int)
    requires
        l.wf(),
        0 <= cx < 20,
        0 <= cy < 18,
        !(x <= cx <= x + w + 1 && y <= cy <= y + h + 1),
    ensures
        with_box(l, x, y, w, h).wf(),
        with_box(l, x, y, w, h).cell(cx, cy) == l.cell(cx, cy),
{
}

/// The layer of a summary shows nothing outside its box, which takes the
/// columns 4 to 19 of the rows 7 to 16.
pub proof fn lemma_summary_stays_in_box(s: SaveSummaryModel, cx: int, cy: int)
    requires
        summary_fits(s),
        0 <= cx < 20,
        0 <= cy < 18,
        !(4 <= cx <= 19 && 7 <= cy <= 16),
    ensures
        summary_layer(s).wf(),
        summary_layer(s).cell(cx, cy).is_none(),
{
    lemma_summary_labels();
    lemma_padded_has_tiles(s.badges, 2, ' ');
    lemma_padded_has_tiles(s.owned, 3, ' ');
    lemma_padded_has_tiles(s.hours as nat, 3, ' ');
    lemma_padded_has_tiles(s.minutes as nat, 2, '0');
    lemma_decimal_small(s.badges);
    lemma_decimal_small(s.owned);
    lemma_decimal_small(s.hours as nat);
    lemma_decimal_small(s.minutes as nat);
    let hours = padded(s.hours as nat, 3, ' ');
    let minutes = padded(s.minutes as nat, 2, '0');
    let time = time_text(s.hours, s.minutes);
    assert(time.len() <= 7);
    assert forall|i: int| 0 <= i < time.len() implies (#[trigger] tile_of(time[i])).is_some() by {
        if i < hours.len() {
            assert(time[i] == hours[i]);
        } else if i == hours.len() {
            assert(time[i] == ':');
        } else {
            assert(time[i] == minutes[i - hours.len() - 1]);
        }
    }
    let l0 = with_box(LayerModel::blank(), 4, 7, 14, 8);
    lemma_box_is_local(LayerModel::blank(), 4, 7, 14, 8, cx, cy);
    let l1 = with_text(l0, 5, 9, "PLAYER"@);
    lemma_text_is_local(l0, 5, 9, "PLAYER"@, cx, cy);
    let l2 = with_text(l1, 12, 9, s.name);
    lemma_text_is_local(l1, 12, 9, s.name, cx, cy);
    let l3 = with_text(l2, 5, 11, "BADGES"@);
    lemma_text_is_local(l2, 5, 11, "BADGES"@, cx, cy);
    let l4 = with_text(l3, 17, 11, number_text(s.badges, 2));
    lemma_text_is_local(l3, 17, 11, number_text(s.badges, 2), cx, cy);
    let l5 = with_text(l4, 5, 13, "POK\u{e9}DEX"@);
    lemma_text_is_local(l4, 5, 13, "POK\u{e9}DEX"@, cx, cy);
    let l6 = with_text(l5, 16, 13, number_text(s.owned, 3));
    lemma_text_is_local(l5, 16, 13, number_text(s.owned, 3), cx, cy);
    let l7 = with_text(l6, 5, 15, "TIME"@);
    lemma_text_is_local(l6, 5, 15, "TIME"@, cx, cy);
    lemma_text_is_local(l7, 13, 15, time, cx, cy);
}

/// The frame with the summary on top differs from the frame before only
/// inside the summary's box, and when the summary's layer is popped the
/// layers are what they were before.
pub proof fn lemma_summary_frame_is_local(c: CpuModel, s: SaveSummaryModel, i: int)
    requires
        c.wf(),
        summary_fits(s),
        0 <= i < 69120,
        !(4 <= ((i / 3) % 160) / 8 <= 19 && 7 <= (i / 480) / 8 <= 16),
    ensures
        with_pushed(c, summary_layer(s)).gpu.composite(c.machine.mem)[i] == c.gpu.composite(
            c.machine.mem,
        )[i],
        with_popped(with_pushed(c, summary_layer(s))) == c,
{
    lemma_summary_stays_in_box(s, ((i / 3) % 160) / 8, (i / 480) / 8);
    c.gpu.lemma_pushed_layer_is_local(c.machine.mem, summary_layer(s), i);
}

/// Why the summary of the saved game in `mem` cannot be shown, if it
/// cannot.
pub open spec fn summary_fault(mem: MemoryModel) -> Option<MenuError> {
    match summary_of(mem) {
        Err(e) => Some(MenuError::Name(e)),
        Ok(s) => if s.name.len() > 8 {
            Some(MenuError::Text(TextError::OutOfBounds))
        } else {
            None
        },
    }
}

/// Shows the summary of the saved game that has been loaded: reads it and
/// pushes the layer that shows it. Where the name cannot be read or does
/// not fit into its field nothing is pushed.
pub fn display_continue_game_info(cpu: &mut Cpu) -> (out: Result<LayerHandle, MenuError>)
    requires
        old(cpu)@.wf(),
    ensures
        match summary_fault(old(cpu)@.machine.mem) {
            Some(e) => out == Err::<LayerHandle, MenuError>(e) && final(cpu)@ == with_memory(
                old(cpu)@,
                sram_closed(sram_opened(old(cpu)@.machine.mem)),
            ),
            None => out matches Ok(handle) && handle.index == old(cpu)@.gpu.layers.len()
                && final(cpu)@ == with_pushed(
                with_memory(old(cpu)@, sram_closed(sram_opened(old(cpu)@.machine.mem))),
                summary_layer(summary_of(old(cpu)@.machine.mem).unwrap()),
            ),
        },
        final(cpu)@.wf(),
{
    proof {
        lemma_name_has_tiles(sram_opened(cpu@.machine.mem), 0, Seq::empty());
    }
    match read_summary(cpu) {
        Err(e) => Err(MenuError::Name(e)),
        Ok(summary) => {
            if summary.name.as_str().unicode_len() > 8 {
                return Err(MenuError::Text(TextError::OutOfBounds));
            }
            Ok(draw_summary(cpu, &summary))
        },
    }
}

/// Starts the main menu: the menu after its first step, and the request
/// that this step ends with.
pub fn main_menu(cpu: &mut Cpu, symbols: MenuSymbols, has_saves: bool) -> (out: (
    MainMenu,
    MenuRequest,
))
    requires
        old(cpu)@.wf(),
    ensures
        (Outcome { menu: out.0@, cpu: final(cpu)@, request: out.1 }) == MenuModel::idle(
            symbols,
        ).started(old(cpu)@, has_saves),
        final(cpu)@.wf(),
{
    let mut menu = MainMenu::new(symbols);
    let request = menu.start(cpu, has_saves);
    (menu, request)
}

/// Routines of the binary that the menu runs or hands over to.
pub const STOP_ALL_MUSIC: u16 = 0x2233;

pub const LOAD_TEXT_BOX_TILE_PATTERNS: u16 = 0x36A3;

pub const LOAD_FONT_TILE_PATTERNS: u16 = 0x3683;

pub const DISPLAY_TITLE_SCREEN: u16 = 0x4171;

pub const MAIN_MENU_PRESSED_A: u16 = 0x5C83;

pub const START_NEW_GAME: u16 = 0x5CD2;

pub const DISPLAY_OPTION_MENU: u16 = 0x5DF2;

/// Where the build of the binary at hand has the routines that the menu
/// needs besides those above.
#[derive(Clone, Copy, Debug, PartialEq, Eq, Structural)]
pub struct MenuSymbols {
    /// The routine that sets the default palette.
    pub run_default_palette_command: u16,
    /// The routine that runs the predefined function whose number is in A.
    pub predef: u16,
    /// The number of the predefined function that loads the saved game.
    pub load_sav: u8,
}

/// Where the menu stands.
#[derive(Clone, Copy, Debug, PartialEq, Eq, Structural)]
pub enum MenuPhase {
    /// Not started.
    Idle,
    /// The binary stops the music.
    StoppingMusic,
    /// The binary sets the default palette.
    SettingPalette,
    /// The binary loads the tiles of the text box.
    LoadingTextBoxTiles,
    /// The binary loads the tiles of the font.
    LoadingFontTiles,
    /// The menu is shown and waits for a key.
    Choosing,
    /// The host has been asked for the list of saves.
    ListingSaves,
    /// The list of saves is shown and waits for a key.
    ChoosingSave,
    /// The host has been asked for the chosen save.
    ReadingSave,
    /// The binary loads the saved game.
    LoadingSave,
    /// The summary of the saved game is shown and waits for a key.
    Confirming,
    /// The binary shows its option menu.
    Options,
    /// The menu is over.
    Finished,
}

/// Why the menu gave up.
#[derive(Clone, Copy, Debug, PartialEq, Eq, Structural)]
pub enum MenuError {
    /// The engine refused a transfer of control.
    Cpu(CpuError),
    /// A text could not be written.
    Text(TextError),
    /// The saved game holds no valid name.
    Name(InvalidNameByte),
    /// The layer stack is not as the menu left it.
    Layers,
    /// The save that the host has read has not the size of cartridge
    /// RAM.
    SaveImage,
    /// What has happened is not what the menu waited for.
    Unexpected,
}

/// What the menu asks its host to do next.
#[derive(Clone, Copy, Debug, PartialEq, Eq, Structural)]
pub enum MenuRequest {
    /// Run the binary until native code has control again, then call
    /// `returned`.
    RunBinary,
    /// Present the frame, wait for a key event, then call `key`.
    WaitKey,
    /// List the saves, then call `saves` with their names.
    ListSaves,
    /// Read the save with this number in the list, then call
    /// `save_image` with its bytes.
    ReadSave(usize),
    /// The menu is over and the binary has control.
    Done,
    /// The session ends: the menu is over, nothing else was done.
    Aborted,
    /// The menu is over because of an error.
    Failed(MenuError),
}

/// The main menu: a sequence of steps, each of which ends with a request
/// to the host.
#[derive(Clone, Copy, Debug, PartialEq, Eq, Structural)]
pub struct MainMenu {
    pub phase: MenuPhase,
    pub symbols: MenuSymbols,
    pub has_saves: bool,
    /// The item that the cursor of the menu marks.
    pub selected: usize,
    /// The number of saves that the list shows.
    pub save_count: usize,
    /// The save that the cursor of the list marks.
    pub save_selected: usize,
    pub menu_layer: LayerHandle,
    pub saves_layer: LayerHandle,
    pub info_layer: LayerHandle,
}

/// The mathematical content of the menu: the layers are named by their
/// places in the stack.
pub struct MenuModel {
    pub phase: MenuPhase,
    pub symbols: MenuSymbols,
    pub has_saves: bool,
    pub selected: usize,
    pub save_count: usize,
    pub save_selected: usize,
    pub menu_layer: nat,
    pub saves_layer: nat,
    pub info_layer: nat,
}

impl View for MainMenu {
    type V = MenuModel;

    open spec fn view(&self) -> MenuModel {
        MenuModel {
            phase: self.phase,
            symbols: self.symbols,
            has_saves: self.has_saves,
            selected: self.selected,
            save_count: self.save_count,
            save_selected: self.save_selected,
            menu_layer: self.menu_layer.index as nat,
            saves_layer: self.saves_layer.index as nat,
            info_layer: self.info_layer.index as nat,
        }
    }
}

/// A step of the menu: the menu and the engine after it, and the request
/// that it ends with.
pub struct Outcome {
    pub menu: MenuModel,
    pub cpu: CpuModel,
    pub request: MenuRequest,
}

/// The menu gives up.
pub open spec fn failed(menu: MenuModel, c: CpuModel, e: MenuError) -> Outcome {
    Outcome {
        menu: MenuModel { phase: MenuPhase::Finished, ..menu },
        cpu: c,
        request: MenuRequest::Failed(e),
    }
}

/// The menu has the binary run the routine at `addr` and goes on in the
/// phase `next` when that returns.
pub open spec fn called(menu: MenuModel, c: CpuModel, addr: u16, next: MenuPhase) -> Outcome {
    match c.call_fault(addr) {
        Some(e) => failed(menu, c, MenuError::Cpu(e)),
        None => Outcome {
            menu: MenuModel { phase: next, ..menu },
            cpu: c.call(addr),
            request: MenuRequest::RunBinary,
        },
    }
}

/// The menu ends by handing control to the binary at `addr`.
pub open spec fn left(menu: MenuModel, c: CpuModel, addr: u16) -> Outcome {
    match c.jump_fault(addr) {
        Some(e) => failed(menu, c, MenuError::Cpu(e)),
        None => Outcome {
            menu: MenuModel { phase: MenuPhase::Finished, ..menu },
            cpu: c.jump(addr),
            request: MenuRequest::Done,
        },
    }
}

/// The menu stays where it is and waits for the next key.
pub open spec fn waiting(menu: MenuModel, c: CpuModel) -> Outcome {
    Outcome { menu, cpu: c, request: MenuRequest::WaitKey }
}

/// Whether the layer at the place `layer` of the stack is the topmost.
pub open spec fn on_top(c: CpuModel, layer: nat) -> bool {
    layer + 1 == c.gpu.layers.len()
}

/// The number of the last item of the menu.
pub open spec fn last_item(has_saves: bool) -> usize {
    if has_saves {
        2
    } else {
        1
    }
}

/// The cursor of the topmost layer goes from `from` to `to`.
pub open spec fn cursor_moved(c: CpuModel, from: usize, to: usize) -> CpuModel {
    with_top(c, with_cursor(without_cursor(c.gpu.layers.last(), from as int), to as int))
}

impl MenuModel {
    /// A menu that has not started.
    pub open spec fn idle(symbols: MenuSymbols) -> MenuModel {
        MenuModel {
            phase: MenuPhase::Idle,
            symbols,
            has_saves: false,
            selected: 0,
            save_count: 0,
            save_selected: 0,
            menu_layer: 0,
            saves_layer: 0,
            info_layer: 0,
        }
    }

    /// The step that starts the menu.
    pub open spec fn started(self, c: CpuModel, has_saves: bool) -> Outcome {
        if self.phase != MenuPhase::Idle {
            failed(self, c, MenuError::Unexpected)
        } else {
            called(
                MenuModel { has_saves, ..self },
                c,
                STOP_ALL_MUSIC,
                MenuPhase::StoppingMusic,
            )
        }
    }

    /// The step after the saved game has been loaded: its summary is
    /// shown.
    pub open spec fn summarised(self, c: CpuModel) -> Outcome {
        let read = with_memory(c, sram_closed(sram_opened(c.machine.mem)));
        match summary_of(c.machine.mem) {
            Err(e) => failed(self, read, MenuError::Name(e)),
            Ok(s) => if s.name.len() > 8 {
                failed(self, read, MenuError::Text(TextError::OutOfBounds))
            } else {
                Outcome {
                    menu: MenuModel {
                        phase: MenuPhase::Confirming,
                        info_layer: c.gpu.layers.len(),
                        ..self
                    },
                    cpu: with_pushed(read, summary_layer(s)),
                    request: MenuRequest::WaitKey,
                }
            },
        }
    }

    /// The step after a routine of the binary has returned.
    pub open spec fn after_return(self, c: CpuModel) -> Outcome {
        match self.phase {
            MenuPhase::StoppingMusic => called(
                self,
                with_memory(c, menu_prepared(c.machine.mem, self.has_saves)),
                self.symbols.run_default_palette_command,
                MenuPhase::SettingPalette,
            ),
            MenuPhase::SettingPalette => called(
                self,
                c,
                LOAD_TEXT_BOX_TILE_PATTERNS,
                MenuPhase::LoadingTextBoxTiles,
            ),
            MenuPhase::LoadingTextBoxTiles => called(
                self,
                c,
                LOAD_FONT_TILE_PATTERNS,
                MenuPhase::LoadingFontTiles,
            ),
            MenuPhase::LoadingFontTiles => Outcome {
                menu: MenuModel {
                    phase: MenuPhase::Choosing,
                    selected: 0,
                    menu_layer: c.gpu.layers.len(),
                    ..self
                },
                cpu: with_pushed(c, with_cursor(main_menu_layer(self.has_saves), 0)),
                request: MenuRequest::WaitKey,
            },
            MenuPhase::LoadingSave => self.summarised(c),
            MenuPhase::Options => left(
                self,
                with_memory(c, c.machine.mem.write(W_OPTIONS_INITIALIZED, 1)),
                DISPLAY_TITLE_SCREEN,
            ),
            _ => failed(self, c, MenuError::Unexpected),
        }
    }

    /// The step after a key has been pressed while the menu is shown.
    pub open spec fn chosen(self, c: CpuModel, key: KeyboardKey) -> Outcome {
        if !on_top(c, self.menu_layer) || self.selected > last_item(self.has_saves) {
            failed(self, c, MenuError::Layers)
        } else if key == KeyboardKey::B {
            left(self, with_popped(c), DISPLAY_TITLE_SCREEN)
        } else if key == KeyboardKey::Up && self.selected > 0 {
            waiting(
                MenuModel { selected: (self.selected - 1) as usize, ..self },
                cursor_moved(c, self.selected, (self.selected - 1) as usize),
            )
        } else if key == KeyboardKey::Down && self.selected < last_item(self.has_saves) {
            waiting(
                MenuModel { selected: (self.selected + 1) as usize, ..self },
                cursor_moved(c, self.selected, (self.selected + 1) as usize),
            )
        } else if key == KeyboardKey::A {
            let item = if self.has_saves { self.selected as int } else { self.selected + 1 };
            if item == 0 {
                Outcome {
                    menu: MenuModel { phase: MenuPhase::ListingSaves, ..self },
                    cpu: c,
                    request: MenuRequest::ListSaves,
                }
            } else if item == 1 {
                left(self, with_popped(c), START_NEW_GAME)
            } else {
                called(self, with_popped(c), DISPLAY_OPTION_MENU, MenuPhase::Options)
            }
        } else {
            waiting(self, c)
        }
    }

    /// The step after a key has been pressed while the list of saves is
    /// shown.
    pub open spec fn save_chosen(self, c: CpuModel, key: KeyboardKey) -> Outcome {
        if !on_top(c, self.saves_layer) || self.save_selected >= self.save_count
            || self.save_count > 8 {
            failed(self, c, MenuError::Layers)
        } else if key == KeyboardKey::B {
            waiting(MenuModel { phase: MenuPhase::Choosing, ..self }, with_popped(c))
        } else if key == KeyboardKey::Up && self.save_selected > 0 {
            waiting(
                MenuModel { save_selected: (self.save_selected - 1) as usize, ..self },
                cursor_moved(c, self.save_selected, (self.save_selected - 1) as usize),
            )
        } else if key == KeyboardKey::Down && self.save_selected < self.save_count - 1 {
            waiting(
                MenuModel { save_selected: (self.save_selected + 1) as usize, ..self },
                cursor_moved(c, self.save_selected, (self.save_selected + 1) as usize),
            )
        } else if key == KeyboardKey::A {
            Outcome {
                menu: MenuModel { phase: MenuPhase::ReadingSave, ..self },
                cpu: c,
                request: MenuRequest::ReadSave(self.save_selected),
            }
        } else {
            waiting(self, c)
        }
    }

    /// The step after a key has been pressed while the summary of the
    /// saved game is shown.
    pub open spec fn confirmed(self, c: CpuModel, key: KeyboardKey) -> Outcome {
        if !on_top(c, self.info_layer) {
            failed(self, c, MenuError::Layers)
        } else if key == KeyboardKey::A {
            let one = with_popped(c);
            let two = with_popped(one);
            if !on_top(one, self.saves_layer) {
                failed(self, one, MenuError::Layers)
            } else if !on_top(two, self.menu_layer) {
                failed(self, two, MenuError::Layers)
            } else {
                left(self, with_popped(two), MAIN_MENU_PRESSED_A)
            }
        } else if key == KeyboardKey::B {
            waiting(MenuModel { phase: MenuPhase::ChoosingSave, ..self }, with_popped(c))
        } else {
            waiting(self, c)
        }
    }

    /// The number of layers that the menu has on the stack.
    pub open spec fn layers_up(self) -> nat {
        match self.phase {
            MenuPhase::Choosing | MenuPhase::ListingSaves => 1,
            MenuPhase::ChoosingSave | MenuPhase::ReadingSave | MenuPhase::LoadingSave => 2,
            MenuPhase::Confirming => 3,
            _ => 0,
        }
    }

    /// The step that ends the menu because the session ends: the layers
    /// that the menu has pushed are popped, topmost first, and nothing else
    /// is done. Where one of them is not on top when its turn comes, the
    /// menu gives up with what it has popped so far.
    pub open spec fn aborted(self, c: CpuModel) -> Outcome {
        let up = self.layers_up();
        let one = if up == 3 { with_popped(c) } else { c };
        let two = if up >= 2 { with_popped(one) } else { one };
        let three = if up >= 1 { with_popped(two) } else { two };
        if up == 3 && !on_top(c, self.info_layer) {
            failed(self, c, MenuError::Layers)
        } else if up >= 2 && !on_top(one, self.saves_layer) {
            failed(self, one, MenuError::Layers)
        } else if up >= 1 && !on_top(two, self.menu_layer) {
            failed(self, two, MenuError::Layers)
        } else {
            Outcome {
                menu: MenuModel { phase: MenuPhase::Finished, ..self },
                cpu: three,
                request: MenuRequest::Aborted,
            }
        }
    }

    /// The step after a key has been pressed: escape ends the menu as the
    /// end of the session does, and every other key is for what is shown.
    pub open spec fn pressed(self, c: CpuModel, key: KeyboardKey) -> Outcome {
        if key == KeyboardKey::Escape {
            self.aborted(c)
        } else {
            match self.phase {
                MenuPhase::Choosing => self.chosen(c, key),
                MenuPhase::ChoosingSave => self.save_chosen(c, key),
                MenuPhase::Confirming => self.confirmed(c, key),
                _ => failed(self, c, MenuError::Unexpected),
            }
        }
    }

    /// The step after a wait on the keypad queue has given `wait`: a key
    /// that goes down is acted on, a key that goes up and an empty queue
    /// are waited out, and the end of the queue ends the menu.
    pub open spec fn after_key(self, c: CpuModel, wait: KeypadWait) -> Outcome {
        match wait {
            KeypadWait::Closed => self.aborted(c),
            KeypadWait::Pending => waiting(self, c),
            KeypadWait::Event(KeyboardEvent::Up { key, shift }) => waiting(self, c),
            KeypadWait::Event(KeyboardEvent::Down { key, shift }) => self.pressed(c, key),
        }
    }

    /// The step after the host has listed the saves: without saves, or
    /// where the listing has failed, the menu is shown on with the engine
    /// as it was, and else the list of saves is shown.
    pub open spec fn after_saves(self, c: CpuModel, names: Seq<Seq<char>>) -> Outcome {
        if self.phase != MenuPhase::ListingSaves {
            failed(self, c, MenuError::Unexpected)
        } else if names.len() == 0 {
            waiting(MenuModel { phase: MenuPhase::Choosing, ..self }, c)
        } else {
            let count = shown(names.len() as int);
            match names_fault(names, count) {
                Some(e) => failed(self, c, MenuError::Text(e)),
                None => Outcome {
                    menu: MenuModel {
                        phase: MenuPhase::ChoosingSave,
                        save_count: count as usize,
                        save_selected: 0,
                        saves_layer: c.gpu.layers.len(),
                        ..self
                    },
                    cpu: with_pushed(c, with_cursor(save_list_layer(names, count, count), 0)),
                    request: MenuRequest::WaitKey,
                },
            }
        }
    }

    /// The step after the host has failed to read the chosen save: the
    /// list of saves is shown on, and the engine is as it was.
    pub open spec fn after_unreadable_save(self, c: CpuModel) -> Outcome {
        if self.phase != MenuPhase::ReadingSave {
            failed(self, c, MenuError::Unexpected)
        } else {
            waiting(MenuModel { phase: MenuPhase::ChoosingSave, ..self }, c)
        }
    }

    /// The step after the host has read the chosen save: its bytes
    /// replace cartridge RAM, and the binary loads the saved game from
    /// there.
    pub open spec fn after_save_image(self, c: CpuModel, image: Seq<u8>) -> Outcome {
        if self.phase != MenuPhase::ReadingSave {
            failed(self, c, MenuError::Unexpected)
        } else if image.len() != c.machine.mem.cart.ram.len() {
            failed(self, c, MenuError::SaveImage)
        } else {
            let spliced = with_memory(c, c.machine.mem.with_ram(image));
            called(
                self,
                spliced.with_machine(spliced.machine.with_a(self.symbols.load_sav)),
                self.symbols.predef,
                MenuPhase::LoadingSave,
            )
        }
    }
}

impl MainMenu {
    /// A menu that has not started.
    pub fn new(symbols: MenuSymbols) -> (out: MainMenu)
        ensures
            out@ == MenuModel::idle(symbols),
    {
        MainMenu {
            phase: MenuPhase::Idle,
            symbols,
            has_saves: false,
            selected: 0,
            save_count: 0,
            save_selected: 0,
            menu_layer: LayerHandle { index: 0 },
            saves_layer: LayerHandle { index: 0 },
            info_layer: LayerHandle { index: 0 },
        }
    }

    fn fail(&mut self, e: MenuError) -> (out: MenuRequest)
        ensures
            *final(self) == (MainMenu { phase: MenuPhase::Finished, ..*old(self) }),
            final(self)@ == (MenuModel { phase: MenuPhase::Finished, ..old(self)@ }),
            out == MenuRequest::Failed(e),
    {
        self.phase = MenuPhase::Finished;
        MenuRequest::Failed(e)
    }

    fn call(&mut self, cpu: &mut Cpu, addr: u16, next: MenuPhase) -> (out: MenuRequest)
        requires
            old(cpu)@.wf(),
        ensures
            (Outcome { menu: final(self)@, cpu: final(cpu)@, request: out }) == called(
                old(self)@,
                old(cpu)@,
                addr,
                next,
            ),
            final(cpu)@.wf(),
    {
        match cpu.call(addr) {
            Ok(()) => {
                self.phase = next;
                MenuRequest::RunBinary
            },
            Err(e) => self.fail(MenuError::Cpu(e)),
        }
    }

    fn leave(&mut self, cpu: &mut Cpu, addr: u16) -> (out: MenuRequest)
        requires
            old(cpu)@.wf(),
        ensures
            (Outcome { menu: final(self)@, cpu: final(cpu)@, request: out }) == left(
                old(self)@,
                old(cpu)@,
                addr,
            ),
            final(cpu)@.wf(),
    {
        match cpu.jump(addr) {
            Ok(()) => {
                self.phase = MenuPhase::Finished;
                MenuRequest::Done
            },
            Err(e) => self.fail(MenuError::Cpu(e)),
        }
    }

    /// Starts the menu; `has_saves` says whether a game is saved.
    pub fn start(&mut self, cpu: &mut Cpu, has_saves: bool) -> (out: MenuRequest)
        requires
            old(cpu)@.wf(),
        ensures
            (Outcome { menu: final(self)@, cpu: final(cpu)@, request: out }) == old(self)@.started(
                old(cpu)@,
                has_saves,
            ),
            final(cpu)@.wf(),
    {
        if self.phase != MenuPhase::Idle {
            return self.fail(MenuError::Unexpected);
        }
        self.has_saves = has_saves;
        self.call(cpu, STOP_ALL_MUSIC, MenuPhase::StoppingMusic)
    }

    fn summarise(&mut self, cpu: &mut Cpu) -> (out: MenuRequest)
        requires
            old(cpu)@.wf(),
        ensures
            (Outcome { menu: final(self)@, cpu: final(cpu)@, request: out }) == old(self)@.summarised(old(cpu)@),
            final(cpu)@.wf(),
    {
        match display_continue_game_info(cpu) {
            Err(e) => self.fail(e),
            Ok(handle) => {
                self.info_layer = handle;
                self.phase = MenuPhase::Confirming;
                MenuRequest::WaitKey
            },
        }
    }

    /// Goes on after a routine of the binary has returned.
    pub fn returned(&mut self, cpu: &mut Cpu) -> (out: MenuRequest)
        requires
            old(cpu)@.wf(),
        ensures
            (Outcome { menu: final(self)@, cpu: final(cpu)@, request: out }) == old(self)@.after_return(old(cpu)@),
            final(cpu)@.wf(),
    {
        match self.phase {
            MenuPhase::StoppingMusic => {
                prepare_memory(cpu, self.has_saves);
                self.call(cpu, self.symbols.run_default_palette_command, MenuPhase::SettingPalette)
            },
            MenuPhase::SettingPalette => self.call(
                cpu,
                LOAD_TEXT_BOX_TILE_PATTERNS,
                MenuPhase::LoadingTextBoxTiles,
            ),
            MenuPhase::LoadingTextBoxTiles => self.call(
                cpu,
                LOAD_FONT_TILE_PATTERNS,
                MenuPhase::LoadingFontTiles,
            ),
            MenuPhase::LoadingFontTiles => {
                self.menu_layer = draw_main_menu(cpu, self.has_saves);
                self.selected = 0;
                self.phase = MenuPhase::Choosing;
                MenuRequest::WaitKey
            },
            MenuPhase::LoadingSave => self.summarise(cpu),
            MenuPhase::Options => {
                cpu.write_byte(W_OPTIONS_INITIALIZED, 1);
                self.leave(cpu, DISPLAY_TITLE_SCREEN)
            },
            _ => self.fail(MenuError::Unexpected),
        }
    }

    fn pick(&mut self, cpu: &mut Cpu, key: KeyboardKey) -> (out: MenuRequest)
        requires
            old(cpu)@.wf(),
        ensures
            (Outcome { menu: final(self)@, cpu: final(cpu)@, request: out }) == old(self)@.chosen(
                old(cpu)@,
                key,
            ),
            final(cpu)@.wf(),
    {
        let max: usize = if self.has_saves { 2 } else { 1 };
        if self.menu_layer.index >= cpu.gpu_layer_count() || self.menu_layer.index
            != cpu.gpu_layer_count() - 1 || self.selected > max {
            return self.fail(MenuError::Layers);
        }
        if key == KeyboardKey::B {
            let popped = cpu.gpu_pop_layer(self.menu_layer);
            assert(popped.is_ok());
            self.leave(cpu, DISPLAY_TITLE_SCREEN)
        } else if key == KeyboardKey::Up && self.selected > 0 {
            move_cursor(cpu, self.selected, self.selected - 1);
            self.selected = self.selected - 1;
            MenuRequest::WaitKey
        } else if key == KeyboardKey::Down && self.selected < max {
            move_cursor(cpu, self.selected, self.selected + 1);
            self.selected = self.selected + 1;
            MenuRequest::WaitKey
        } else if key == KeyboardKey::A {
            let item: usize = if self.has_saves { self.selected } else { self.selected + 1 };
            if item == 0 {
                self.phase = MenuPhase::ListingSaves;
                MenuRequest::ListSaves
            } else if item == 1 {
                let popped = cpu.gpu_pop_layer(self.menu_layer);
                assert(popped.is_ok());
                self.leave(cpu, START_NEW_GAME)
            } else {
                let popped = cpu.gpu_pop_layer(self.menu_layer);
                assert(popped.is_ok());
                self.call(cpu, DISPLAY_OPTION_MENU, MenuPhase::Options)
            }
        } else {
            MenuRequest::WaitKey
        }
    }

    fn pick_save(&mut self, cpu: &mut Cpu, key: KeyboardKey) -> (out: MenuRequest)
        requires
            old(cpu)@.wf(),
        ensures
            (Outcome { menu: final(self)@, cpu: final(cpu)@, request: out }) == old(self)@.save_chosen(old(cpu)@, key),
            final(cpu)@.wf(),
    {
        if self.saves_layer.index >= cpu.gpu_layer_count() || self.saves_layer.index
            != cpu.gpu_layer_count() - 1 || self.save_selected >= self.save_count
            || self.save_count > 8 {
            return self.fail(MenuError::Layers);
        }
        if key == KeyboardKey::B {
            let popped = cpu.gpu_pop_layer(self.saves_layer);
            assert(popped.is_ok());
            self.phase = MenuPhase::Choosing;
            MenuRequest::WaitKey
        } else if key == KeyboardKey::Up && self.save_selected > 0 {
            move_cursor(cpu, self.save_selected, self.save_selected - 1);
            self.save_selected = self.save_selected - 1;
            MenuRequest::WaitKey
        } else if key == KeyboardKey::Down && self.save_selected < self.save_count - 1 {
            move_cursor(cpu, self.save_selected, self.save_selected + 1);
            self.save_selected = self.save_selected + 1;
            MenuRequest::WaitKey
        } else if key == KeyboardKey::A {
            self.phase = MenuPhase::ReadingSave;
            MenuRequest::ReadSave(self.save_selected)
        } else {
            MenuRequest::WaitKey
        }
    }

    fn confirm(&mut self, cpu: &mut Cpu, key: KeyboardKey) -> (out: MenuRequest)
        requires
            old(cpu)@.wf(),
        ensures
            (Outcome { menu: final(self)@, cpu: final(cpu)@, request: out }) == old(self)@.confirmed(old(cpu)@, key),
            final(cpu)@.wf(),
    {
        if self.info_layer.index >= cpu.gpu_layer_count() || self.info_layer.index
            != cpu.gpu_layer_count() - 1 {
            return self.fail(MenuError::Layers);
        }
        if key == KeyboardKey::A {
            let popped = cpu.gpu_pop_layer(self.info_layer);
            assert(popped.is_ok());
            match cpu.gpu_pop_layer(self.saves_layer) {
                Err(_) => {
                    return self.fail(MenuError::Layers);
                },
                Ok(()) => {},
            }
            match cpu.gpu_pop_layer(self.menu_layer) {
                Err(_) => {
                    return self.fail(MenuError::Layers);
                },
                Ok(()) => {},
            }
            self.leave(cpu, MAIN_MENU_PRESSED_A)
        } else if key == KeyboardKey::B {
            let popped = cpu.gpu_pop_layer(self.info_layer);
            assert(popped.is_ok());
            self.phase = MenuPhase::ChoosingSave;
            MenuRequest::WaitKey
        } else {
            MenuRequest::WaitKey
        }
    }

    fn abort(&mut self, cpu: &mut Cpu) -> (out: MenuRequest)
        requires
            old(cpu)@.wf(),
        ensures
            (Outcome { menu: final(self)@, cpu: final(cpu)@, request: out }) == old(self)@.aborted(
                old(cpu)@,
            ),
            final(cpu)@.wf(),
    {
        let up: u8 = match self.phase {
            MenuPhase::Choosing | MenuPhase::ListingSaves => 1,
            MenuPhase::ChoosingSave | MenuPhase::ReadingSave | MenuPhase::LoadingSave => 2,
            MenuPhase::Confirming => 3,
            _ => 0,
        };
        if up == 3 {
            match cpu.gpu_pop_layer(self.info_layer) {
                Err(_) => {
                    return self.fail(MenuError::Layers);
                },
                Ok(()) => {},
            }
        }
        if up >= 2 {
            match cpu.gpu_pop_layer(self.saves_layer) {
                Err(_) => {
                    return self.fail(MenuError::Layers);
                },
                Ok(()) => {},
            }
        }
        if up >= 1 {
            match cpu.gpu_pop_layer(self.menu_layer) {
                Err(_) => {
                    return self.fail(MenuError::Layers);
                },
                Ok(()) => {},
            }
        }
        self.phase = MenuPhase::Finished;
        MenuRequest::Aborted
    }

    /// Goes on after a wait on the keypad queue. Escape and the end of the
    /// queue end the menu: its layers are popped, topmost first.
    pub fn key(&mut self, cpu: &mut Cpu, wait: KeypadWait) -> (out: MenuRequest)
        requires
            old(cpu)@.wf(),
        ensures
            (Outcome { menu: final(self)@, cpu: final(cpu)@, request: out }) == old(self)@.after_key(old(cpu)@, wait),
            final(cpu)@.wf(),
    {
        match wait {
            KeypadWait::Closed => self.abort(cpu),
            KeypadWait::Pending => MenuRequest::WaitKey,
            KeypadWait::Event(KeyboardEvent::Up { key, shift }) => MenuRequest::WaitKey,
            KeypadWait::Event(KeyboardEvent::Down { key, shift }) => {
                if key == KeyboardKey::Escape {
                    return self.abort(cpu);
                }
                match self.phase {
                    MenuPhase::Choosing => self.pick(cpu, key),
                    MenuPhase::ChoosingSave => self.pick_save(cpu, key),
                    MenuPhase::Confirming => self.confirm(cpu, key),
                    _ => self.fail(MenuError::Unexpected),
                }
            },
        }
    }

    /// Goes on after the host has listed the saves; `listing` holds their
    /// names, in the order of the list, or nothing where the listing has
    /// failed, which is taken as a listing without saves.
    pub fn saves(&mut self, cpu: &mut Cpu, listing: Option<&Vec<String>>) -> (out: MenuRequest)
        requires
            old(cpu)@.wf(),
        ensures
            (Outcome { menu: final(self)@, cpu: final(cpu)@, request: out }) == old(
                self,
            )@.after_saves(old(cpu)@, listed(listing)),
            final(cpu)@.wf(),
    {
        if self.phase != MenuPhase::ListingSaves {
            return self.fail(MenuError::Unexpected);
        }
        match main_menu_select_save(cpu, listing) {
            Err(e) => self.fail(MenuError::Text(e)),
            Ok(None) => {
                self.phase = MenuPhase::Choosing;
                MenuRequest::WaitKey
            },
            Ok(Some(handle)) => {
                let count: usize = match listing {
                    Some(names) => names.len(),
                    None => 0,
                };
                self.saves_layer = handle;
                self.save_count = if count < SAVES_ON_A_PAGE { count } else { SAVES_ON_A_PAGE };
                self.save_selected = 0;
                self.phase = MenuPhase::ChoosingSave;
                MenuRequest::WaitKey
            },
        }
    }

    /// Goes on after the host has failed to read the chosen save: the list
    /// of saves is shown on, and nothing of the engine has changed.
    pub fn save_unreadable(&mut self, cpu: &mut Cpu) -> (out: MenuRequest)
        ensures
            (Outcome { menu: final(self)@, cpu: final(cpu)@, request: out }) == old(
                self,
            )@.after_unreadable_save(old(cpu)@),
    {
        if self.phase != MenuPhase::ReadingSave {
            return self.fail(MenuError::Unexpected);
        }
        self.phase = MenuPhase::ChoosingSave;
        MenuRequest::WaitKey
    }

    /// Goes on after the host has read the chosen save.
    pub fn save_image(&mut self, cpu: &mut Cpu, image: Vec<u8>) -> (out: MenuRequest)
        requires
            old(cpu)@.wf(),
        ensures
            (Outcome { menu: final(self)@, cpu: final(cpu)@, request: out }) == old(self)@.after_save_image(old(cpu)@, image@),
            final(cpu)@.wf(),
    {
        if self.phase != MenuPhase::ReadingSave {
            return self.fail(MenuError::Unexpected);
        }
        if !cpu.replace_ram(image) {
            return self.fail(MenuError::SaveImage);
        }
        let mut regs = cpu.registers();
        regs.a = self.symbols.load_sav;
        cpu.set_registers(regs);
        self.call(cpu, self.symbols.predef, MenuPhase::LoadingSave)
    }
}

} // verus!
