//! Menus edited with the rotary encoder: a list of items, one of them current.

use vstd::prelude::*;

pub mod render;
pub mod sequencer;
pub mod step;

use self::render::{item_state, MenuItemRender, MenuItemState};

verus! {

/// Width of the display in pixels.
pub const WIDTH: u32 = 128;

/// A value with a fixed label.
pub trait Stringable {
    spec fn label(&self) -> Seq<char>;

    fn as_str(&self) -> (s: &'static str)
        ensures
            s@ == self.label(),
    ;
}

/// A menu value into whose parts items holding a `V` write; `field` names the part.
pub trait SetField<V>: Sized {
    spec fn with_field(self, field: usize, value: V) -> Self;

    fn set_field(&mut self, field: usize, value: V)
        ensures
            *final(self) == old(self).with_field(field, value),
    ;
}

/// One line of a menu: a title, a value, and how the encoder changes it.
pub trait MenuItem<T>: Sized {
    spec fn title_view(&self) -> Seq<char>;

    spec fn value_view(&self) -> Seq<char>;

    /// The item is in a usable state.
    spec fn inv(&self) -> bool;

    /// Turning the encoder by `step` stays within machine arithmetic.
    spec fn can_change(&self, step: i32) -> bool;

    /// The item after the encoder turned by `step`.
    spec fn changed(&self, step: i32) -> Self;

    /// The menu value after this item wrote its value into it.
    spec fn written(&self, value: T) -> T;

    fn as_str(&self) -> (r: (String, String))
        requires
            self.inv(),
        ensures
            r.0@ == self.title_view(),
            r.1@ == self.value_view(),
    ;

    /// Whether turning the encoder by `step` stays within machine arithmetic.
    fn change_fits(&self, step: i32) -> (b: bool)
        ensures
            b == self.can_change(step),
    ;

    fn on_change(&mut self, value: &mut T, step: i32)
        requires
            old(self).inv(),
            old(self).can_change(step),
        ensures
            *final(self) == old(self).changed(step),
            final(self).inv(),
            *final(value) == final(self).written(*old(value)),
    ;
}

/// The character for a decimal digit.
pub open spec fn digit_char(d: nat) -> char {
    (('0' as nat) + d) as char
}

/// Decimal notation of a natural number, most significant digit first, no leading zeros.
pub open spec fn decimal(n: nat) -> Seq<char>
    decreases n,
{
    if n < 10 {
        seq![digit_char(n)]
    } else {
        decimal(n / 10).push(digit_char(n % 10))
    }
}

/// `itoa::Buffer::format`: the decimal notation of an unsigned integer.
#[verifier::external_body]
fn format_decimal(value: u32) -> (s: String)
    ensures
        s@ == decimal(value as nat),
{
    let mut buffer = itoa::Buffer::new();
    buffer.format(value).to_owned()
}

/// The integer that the bits of `v` stand for when read as an `i32`.
pub open spec fn as_signed(v: u32) -> int {
    if v <= i32::MAX {
        v as int
    } else {
        v - 0x1_0000_0000
    }
}

/// Adding `step` to the value read as an `i32` does not overflow.
pub open spec fn numeric_can_step(v: u32, step: i32) -> bool {
    i32::MIN <= as_signed(v) + step <= i32::MAX
}

/// The value after a turn: the sum, or zero where the sum is negative.
pub open spec fn numeric_stepped(v: u32, step: i32) -> u32 {
    let n = as_signed(v) + step;
    if n < 0 {
        0
    } else {
        n as u32
    }
}

/// An item holding a number; turning the encoder adds to it, never below zero.
#[derive(Clone, Copy)]
pub struct NumericMenuItem<'a> {
    pub title: &'a str,
    pub value: u32,
    /// The part of the menu value this item writes.
    pub field: usize,
}

impl<'a> NumericMenuItem<'a> {
    pub fn new(title: &'a str, value: u32, field: usize) -> (item: Self)
        ensures
            item.title@ == title@,
            item.value == value,
            item.field == field,
    {
        NumericMenuItem { title, value, field }
    }
}

impl<'a, T: SetField<u32>> MenuItem<T> for NumericMenuItem<'a> {
    open spec fn title_view(&self) -> Seq<char> {
        self.title@
    }

    open spec fn value_view(&self) -> Seq<char> {
        decimal(self.value as nat)
    }

    open spec fn inv(&self) -> bool {
        true
    }

    open spec fn can_change(&self, step: i32) -> bool {
        numeric_can_step(self.value, step)
    }

    open spec fn changed(&self, step: i32) -> Self {
        NumericMenuItem { value: numeric_stepped(self.value, step), ..*self }
    }

    open spec fn written(&self, value: T) -> T {
        value.with_field(self.field, self.value)
    }

    fn as_str(&self) -> (r: (String, String)) {
        (self.title.to_owned(), format_decimal(self.value))
    }

    fn change_fits(&self, step: i32) -> (b: bool) {
        let current: i64 = if self.value <= 0x7fff_ffff {
            self.value as i64
        } else {
            self.value as i64 - 0x1_0000_0000
        };
        let sum: i64 = current + step as i64;
        -0x8000_0000 <= sum && sum <= 0x7fff_ffff
    }

    fn on_change(&mut self, value: &mut T, step: i32) {
        let current: i64 = if self.value <= 0x7fff_ffff {
            self.value as i64
        } else {
            self.value as i64 - 0x1_0000_0000
        };
        let intermediate: i64 = current + step as i64;
        self.value = if intermediate < 0 {
            0
        } else {
            intermediate as u32
        };
        value.set_field(self.field, self.value);
    }
}

/// An item holding a flag; any turn of the encoder flips it.
#[derive(Clone, Copy)]
pub struct BooleanMenuItem<'a> {
    pub title: &'a str,
    pub value: bool,
    pub on_str: &'a str,
    pub off_str: &'a str,
    /// The part of the menu value this item writes.
    pub field: usize,
}

impl<'a> BooleanMenuItem<'a> {
    pub fn new(title: &'a str, on_str: &'a str, off_str: &'a str, value: bool, field: usize) -> (item:
        Self)
        ensures
            item.title@ == title@,
            item.on_str@ == on_str@,
            item.off_str@ == off_str@,
            item.value == value,
            item.field == field,
    {
        BooleanMenuItem { title, value, on_str, off_str, field }
    }
}

impl<'a, T: SetField<bool>> MenuItem<T> for BooleanMenuItem<'a> {
    open spec fn title_view(&self) -> Seq<char> {
        self.title@
    }

    open spec fn value_view(&self) -> Seq<char> {
        if self.value {
            self.on_str@
        } else {
            self.off_str@
        }
    }

    open spec fn inv(&self) -> bool {
        true
    }

    open spec fn can_change(&self, step: i32) -> bool {
        true
    }

    open spec fn changed(&self, step: i32) -> Self {
        BooleanMenuItem { value: !self.value, ..*self }
    }

    open spec fn written(&self, value: T) -> T {
        value.with_field(self.field, self.value)
    }

    fn as_str(&self) -> (r: (String, String)) {
        let value = if self.value {
            self.on_str
        } else {
            self.off_str
        };
        (self.title.to_owned(), value.to_owned())
    }

    fn change_fits(&self, step: i32) -> (b: bool) {
        true
    }

    fn on_change(&mut self, value: &mut T, _step: i32) {
        self.value = !self.value;
        value.set_field(self.field, self.value);
    }
}

/// The first position holding `value`, or 0 where none does.
pub open spec fn position_or_zero<E>(options: Seq<E>, value: E) -> int {
    if exists|i: int|
        0 <= i < options.len() && options[i] == value && forall|j: int|
            0 <= j < i ==> options[j] != value {
        choose|i: int|
            0 <= i < options.len() && options[i] == value && forall|j: int|
                0 <= j < i ==> options[j] != value
    } else {
        0
    }
}

/// Where `value` first stands among the options, or 0.
fn find_position<E: PartialEq, const SIZE: usize>(options: &[E; SIZE], value: &E) -> (index: usize)
    requires
        vstd::laws_eq::obeys_concrete_eq::<E>(),
    ensures
        index == position_or_zero(options@, *value),
{
    proof {
        reveal(vstd::laws_eq::obeys_concrete_eq);
    }
    let mut i: usize = 0;
    while i < SIZE
        invariant
            i <= SIZE,
            SIZE == options@.len(),
            forall|j: int| 0 <= j < i ==> options@[j] != *value,
            vstd::laws_eq::obeys_concrete_eq::<E>(),
        decreases SIZE - i,
    {
        proof {
            reveal(vstd::laws_eq::obeys_concrete_eq);
        }
        if options[i] == *value {
            return i;
        }
        i += 1;
    }
    0
}

/// `index + step` taken modulo `size`, into `0..size`.
pub open spec fn wrap_index(index: int, step: int, size: int) -> int {
    (index + step) % size
}

/// `index + step` taken modulo `size`, computed without signed remainders.
fn step_index(index: usize, step: i32, size: usize) -> (r: usize)
    requires
        0 < size <= i32::MAX,
        index < size,
    ensures
        r == wrap_index(index as int, step as int, size as int),
        r < size,
{
    let total: i64 = index as i64 + step as i64;
    if total >= 0 {
        let t: u64 = total as u64;
        let r: u64 = t % (size as u64);
        r as usize
    } else {
        let magnitude: u64 = (-total) as u64;
        let m: u64 = magnitude % (size as u64);
        proof {
            let a = magnitude as int;
            let n = size as int;
            vstd::arithmetic::div_mod::lemma_fundamental_div_mod(a, n);
            let q = a / n;
            assert((-q) * n == -(n * q)) by (nonlinear_arith);
            assert((-q - 1) * n == -(n * q) - n) by (nonlinear_arith);
            if m == 0 {
                vstd::arithmetic::div_mod::lemma_fundamental_div_mod_converse_mod(
                    total as int,
                    n,
                    -q,
                    0,
                );
            } else {
                vstd::arithmetic::div_mod::lemma_fundamental_div_mod_converse_mod(
                    total as int,
                    n,
                    -q - 1,
                    n - m,
                );
            }
        }
        if m == 0 {
            0
        } else {
            (size as u64 - m) as usize
        }
    }
}

/// An item choosing one of `SIZE` options; turning the encoder walks the options cyclically.
#[derive(Clone, Copy)]
pub struct EnumMenuItem<'a, const SIZE: usize, E> {
    title: &'a str,
    options: [E; SIZE],
    index: usize,
    value: E,
    field: usize,
}

impl<'a, const SIZE: usize, E> EnumMenuItem<'a, SIZE, E> {
    pub closed spec fn title(&self) -> Seq<char> {
        self.title@
    }

    pub closed spec fn options(&self) -> Seq<E> {
        self.options@
    }

    pub closed spec fn index(&self) -> usize {
        self.index
    }

    pub closed spec fn spec_value(&self) -> E {
        self.value
    }

    pub closed spec fn field(&self) -> usize {
        self.field
    }

    /// The current position lies among the options.
    pub open spec fn wf(&self) -> bool {
        &&& 0 < SIZE <= i32::MAX
        &&& self.options().len() == SIZE
        &&& self.index() < SIZE
    }

    /// There are always `SIZE` options.
    pub proof fn lemma_options_len(&self)
        ensures
            self.options().len() == SIZE,
    {
    }

    /// The item with another current position and value, all else kept.
    pub closed spec fn moved(&self, index: usize, value: E) -> Self {
        EnumMenuItem { index, value, ..*self }
    }

    /// Moving keeps the title, options and field and sets the position and value.
    pub proof fn lemma_moved(&self, index: usize, value: E)
        ensures
            self.moved(index, value).title() == self.title(),
            self.moved(index, value).options() == self.options(),
            self.moved(index, value).field() == self.field(),
            self.moved(index, value).index() == index,
            self.moved(index, value).spec_value() == value,
            self.moved(index, value).wf() == (0 < SIZE <= i32::MAX && index < SIZE),
            self.moved(index, value).options().len() == SIZE,
    {
    }

    pub fn value(&self) -> (v: E)
        where
            E: Copy,
        ensures
            v == self.spec_value(),
    {
        self.value
    }

    /// Starts at the first option equal to `value`, or at the first option where none is.
    pub fn new(title: &'a str, options: [E; SIZE], value: E, field: usize) -> (item: Self)
        where
            E: PartialEq,
        requires
            vstd::laws_eq::obeys_concrete_eq::<E>(),
        ensures
            item.title() == title@,
            item.options() == options@,
            item.options().len() == SIZE,
            item.index() == position_or_zero(options@, value),
            item.spec_value() == value,
            item.field() == field,
            0 < SIZE <= i32::MAX ==> item.wf(),
    {
        let index = find_position(&options, &value);
        proof {
            if 0 < SIZE {
                Self::lemma_position_in_range(options@, value);
            }
        }
        EnumMenuItem { title, options, index, value, field }
    }

    /// Moves to the first option equal to `value`, or to the first option where none is.
    pub fn set(&mut self, value: E)
        where
            E: PartialEq,
        requires
            vstd::laws_eq::obeys_concrete_eq::<E>(),
        ensures
            *final(self) == old(self).moved(position_or_zero(old(self).options(), value) as usize, value),
            final(self).title() == old(self).title(),
            final(self).options() == old(self).options(),
            final(self).options().len() == SIZE,
            final(self).field() == old(self).field(),
            final(self).index() == position_or_zero(old(self).options(), value),
            final(self).spec_value() == value,
            0 < SIZE <= i32::MAX ==> final(self).wf(),
    {
        self.index = find_position(&self.options, &value);
        proof {
            if 0 < SIZE {
                Self::lemma_position_in_range(self.options@, value);
            }
        }
        self.value = value;
    }

    proof fn lemma_position_in_range(options: Seq<E>, value: E)
        requires
            options.len() > 0,
        ensures
            0 <= position_or_zero(options, value) < options.len(),
    {
    }
}

impl<'a, const SIZE: usize, E: Stringable + Copy, T: SetField<E>> MenuItem<T> for EnumMenuItem<
    'a,
    SIZE,
    E,
> {
    open spec fn title_view(&self) -> Seq<char> {
        self.title()
    }

    open spec fn value_view(&self) -> Seq<char> {
        self.options()[self.index() as int].label()
    }

    open spec fn inv(&self) -> bool {
        self.wf()
    }

    open spec fn can_change(&self, step: i32) -> bool {
        i32::MIN <= self.index() + step <= i32::MAX
    }

    open spec fn changed(&self, step: i32) -> Self {
        let index = wrap_index(self.index() as int, step as int, SIZE as int) as usize;
        self.moved(index, self.options()[index as int])
    }

    open spec fn written(&self, value: T) -> T {
        value.with_field(self.field(), self.spec_value())
    }

    fn as_str(&self) -> (r: (String, String)) {
        let label = self.options[self.index].as_str();
        (self.title.to_owned(), label.to_owned())
    }

    fn change_fits(&self, step: i32) -> (b: bool) {
        let sum: i128 = self.index as i128 + step as i128;
        -0x8000_0000 <= sum && sum <= 0x7fff_ffff
    }

    fn on_change(&mut self, value: &mut T, step: i32) {
        self.index = step_index(self.index, step, SIZE);
        self.value = self.options[self.index];
        value.set_field(self.field, self.value);
    }
}

/// An item of any of the three kinds, so that one menu can hold all of them.
#[derive(Clone, Copy)]
pub enum MenuEntry<'a, E, const N: usize> {
    Numeric(NumericMenuItem<'a>),
    Boolean(BooleanMenuItem<'a>),
    Choice(EnumMenuItem<'a, N, E>),
}

impl<'a, E: Stringable + Copy, const N: usize, T: SetField<u32> + SetField<bool> + SetField<
    E,
>> MenuItem<T> for MenuEntry<'a, E, N> {
    open spec fn title_view(&self) -> Seq<char> {
        match *self {
            MenuEntry::Numeric(i) => <NumericMenuItem<'a> as MenuItem<T>>::title_view(&i),
            MenuEntry::Boolean(i) => <BooleanMenuItem<'a> as MenuItem<T>>::title_view(&i),
            MenuEntry::Choice(i) => <EnumMenuItem<'a, N, E> as MenuItem<T>>::title_view(&i),
        }
    }

    open spec fn value_view(&self) -> Seq<char> {
        match *self {
            MenuEntry::Numeric(i) => <NumericMenuItem<'a> as MenuItem<T>>::value_view(&i),
            MenuEntry::Boolean(i) => <BooleanMenuItem<'a> as MenuItem<T>>::value_view(&i),
            MenuEntry::Choice(i) => <EnumMenuItem<'a, N, E> as MenuItem<T>>::value_view(&i),
        }
    }

    open spec fn inv(&self) -> bool {
        match *self {
            MenuEntry::Numeric(i) => <NumericMenuItem<'a> as MenuItem<T>>::inv(&i),
            MenuEntry::Boolean(i) => <BooleanMenuItem<'a> as MenuItem<T>>::inv(&i),
            MenuEntry::Choice(i) => <EnumMenuItem<'a, N, E> as MenuItem<T>>::inv(&i),
        }
    }

    open spec fn can_change(&self, step: i32) -> bool {
        match *self {
            MenuEntry::Numeric(i) => <NumericMenuItem<'a> as MenuItem<T>>::can_change(&i, step),
            MenuEntry::Boolean(i) => <BooleanMenuItem<'a> as MenuItem<T>>::can_change(&i, step),
            MenuEntry::Choice(i) => <EnumMenuItem<'a, N, E> as MenuItem<T>>::can_change(&i, step),
        }
    }

    open spec fn changed(&self, step: i32) -> Self {
        match *self {
            MenuEntry::Numeric(i) => MenuEntry::Numeric(
                <NumericMenuItem<'a> as MenuItem<T>>::changed(&i, step),
            ),
            MenuEntry::Boolean(i) => MenuEntry::Boolean(
                <BooleanMenuItem<'a> as MenuItem<T>>::changed(&i, step),
            ),
            MenuEntry::Choice(i) => MenuEntry::Choice(
                <EnumMenuItem<'a, N, E> as MenuItem<T>>::changed(&i, step),
            ),
        }
    }

    open spec fn written(&self, value: T) -> T {
        match *self {
            MenuEntry::Numeric(i) => <NumericMenuItem<'a> as MenuItem<T>>::written(&i, value),
            MenuEntry::Boolean(i) => <BooleanMenuItem<'a> as MenuItem<T>>::written(&i, value),
            MenuEntry::Choice(i) => <EnumMenuItem<'a, N, E> as MenuItem<T>>::written(&i, value),
        }
    }

    fn as_str(&self) -> (r: (String, String)) {
        match self {
            MenuEntry::Numeric(i) => <NumericMenuItem<'a> as MenuItem<T>>::as_str(i),
            MenuEntry::Boolean(i) => <BooleanMenuItem<'a> as MenuItem<T>>::as_str(i),
            MenuEntry::Choice(i) => <EnumMenuItem<'a, N, E> as MenuItem<T>>::as_str(i),
        }
    }

    fn change_fits(&self, step: i32) -> (b: bool) {
        match self {
            MenuEntry::Numeric(i) => <NumericMenuItem<'a> as MenuItem<T>>::change_fits(i, step),
            MenuEntry::Boolean(i) => <BooleanMenuItem<'a> as MenuItem<T>>::change_fits(i, step),
            MenuEntry::Choice(i) => <EnumMenuItem<'a, N, E> as MenuItem<T>>::change_fits(i, step),
        }
    }

    fn on_change(&mut self, value: &mut T, step: i32) {
        match *self {
            MenuEntry::Numeric(mut i) => {
                <NumericMenuItem<'a> as MenuItem<T>>::on_change(&mut i, value, step);
                *self = MenuEntry::Numeric(i);
            },
            MenuEntry::Boolean(mut i) => {
                <BooleanMenuItem<'a> as MenuItem<T>>::on_change(&mut i, value, step);
                *self = MenuEntry::Boolean(i);
            },
            MenuEntry::Choice(mut i) => {
                <EnumMenuItem<'a, N, E> as MenuItem<T>>::on_change(&mut i, value, step);
                *self = MenuEntry::Choice(i);
            },
        }
    }
}

/// The abstract state of a menu.
pub struct MenuView<T, I> {
    pub title: Seq<char>,
    pub index: usize,
    pub items: Seq<I>,
    pub selecting: bool,
    pub value: T,
}

/// The menu is in a usable state: the current line exists and every item is usable.
pub open spec fn menu_wf<T, I: MenuItem<T>>(m: MenuView<T, I>) -> bool {
    &&& m.items.len() == 0 ==> m.index == 0
    &&& m.items.len() > 0 ==> m.index < m.items.len()
    &&& forall|i: int| 0 <= i < m.items.len() ==> #[trigger] m.items[i].inv()
}

/// Turning the encoder by `step` stays within machine arithmetic.
pub open spec fn menu_can_change<T, I: MenuItem<T>>(m: MenuView<T, I>, step: i32) -> bool {
    &&& 0 < m.items.len() <= i32::MAX
    &&& m.selecting ==> i32::MIN <= m.index + step <= i32::MAX
    &&& !m.selecting ==> m.items[m.index as int].can_change(step)
}

/// The menu after the encoder turned by `step`, and the value reported when an item changed.
/// While selecting, the current line moves cyclically; otherwise the current item changes
/// and writes into the menu's value.
pub open spec fn menu_changed<T, I: MenuItem<T>>(m: MenuView<T, I>, step: i32) -> (MenuView<
    T,
    I,
>, Option<T>) {
    if m.selecting {
        (
            MenuView {
                index: wrap_index(m.index as int, step as int, m.items.len() as int) as usize,
                ..m
            },
            None,
        )
    } else {
        let item = m.items[m.index as int].changed(step);
        let value = item.written(m.value);
        (MenuView { items: m.items.update(m.index as int, item), value, ..m }, Some(value))
    }
}

/// The menu after the encoder button was pressed: selecting lines and editing an item alternate.
pub open spec fn menu_selected<T, I>(m: MenuView<T, I>) -> MenuView<T, I> {
    MenuView { selecting: !m.selecting, ..m }
}

/// A titled list of items with one current line, either being chosen or being edited.
pub struct Menu<'a, T, I, const SIZE: usize> {
    title: &'a str,
    index: usize,
    items: [I; SIZE],
    selecting: bool,
    value: T,
}

impl<'a, T, I, const SIZE: usize> View for Menu<'a, T, I, SIZE> {
    type V = MenuView<T, I>;

    closed spec fn view(&self) -> MenuView<T, I> {
        MenuView {
            title: self.title@,
            index: self.index,
            items: self.items@,
            selecting: self.selecting,
            value: self.value,
        }
    }
}

impl<'a, T: Copy, I: MenuItem<T> + Copy, const SIZE: usize> Menu<'a, T, I, SIZE> {
    /// Starts on the first line, choosing lines.
    pub fn new(title: &'a str, value: T, items: [I; SIZE]) -> (menu: Self)
        requires
            forall|i: int| 0 <= i < SIZE ==> #[trigger] items@[i].inv(),
        ensures
            menu@ == (MenuView { title: title@, index: 0, items: items@, selecting: false, value }),
            menu@.items.len() == SIZE,
            menu_wf(menu@),
    {
        Menu { title, index: 0, items, selecting: false, value }
    }

    /// Turns the encoder by `step`; returns the menu's new value where an item changed.
    pub fn on_change(&mut self, step: i32) -> (sent: Option<T>)
        requires
            menu_wf(old(self)@),
            menu_can_change(old(self)@, step),
        ensures
            (final(self)@, sent) == menu_changed(old(self)@, step),
            old(self)@.items.len() == SIZE,
            final(self)@.items.len() == SIZE,
            menu_wf(final(self)@),
    {
        if self.selecting {
            self.index = step_index(self.index, step, SIZE);
            None
        } else {
            let mut item = self.items[self.index];
            item.on_change(&mut self.value, step);
            self.items[self.index] = item;
            proof {
                assert(self.items@ =~= old(self).items@.update(self.index as int, item));
            }
            Some(self.value)
        }
    }

    /// A menu has `SIZE` lines.
    pub proof fn lemma_items_len(&self)
        ensures
            self@.items.len() == SIZE,
    {
    }

    /// Whether turning the encoder by `step` stays within machine arithmetic.
    pub fn can_change(&self, step: i32) -> (b: bool)
        requires
            menu_wf(self@),
        ensures
            b == menu_can_change(self@, step),
    {
        if SIZE == 0 || SIZE > 0x7fff_ffff {
            return false;
        }
        if self.selecting {
            let sum: i64 = self.index as i64 + step as i64;
            sum <= 0x7fff_ffff
        } else {
            self.items[self.index].change_fits(step)
        }
    }

    /// Switches between choosing a line and editing its item.
    pub fn on_select(&mut self)
        ensures
            final(self)@ == menu_selected(old(self)@),
            final(self)@.items.len() == SIZE,
    {
        self.selecting = !self.selecting;
    }

    /// The menu's heading.
    pub fn title(&self) -> (t: &'a str)
        ensures
            t@ == self@.title,
    {
        self.title
    }

    /// The value the items have written so far.
    pub fn value(&self) -> (v: T)
        ensures
            v == self@.value,
    {
        self.value
    }

    /// One line per item: its position, title, value and how it is highlighted.
    pub fn render(&self) -> (lines: Vec<MenuItemRender>)
        requires
            menu_wf(self@),
        ensures
            lines@.len() == SIZE,
            forall|i: int|
                0 <= i < SIZE ==> {
                    &&& (#[trigger] lines@[i]).position == i
                    &&& lines@[i].title@ == self@.items[i].title_view()
                    &&& lines@[i].value@ == self@.items[i].value_view()
                    &&& lines@[i].state == item_state(i, self@.index as int, self@.selecting)
                },
    {
        let mut lines: Vec<MenuItemRender> = Vec::new();
        let mut i: usize = 0;
        while i < SIZE
            invariant
                i <= SIZE,
                menu_wf(self@),
                lines@.len() == i,
                forall|k: int|
                    0 <= k < i ==> {
                        &&& (#[trigger] lines@[k]).position == k
                        &&& lines@[k].title@ == self@.items[k].title_view()
                        &&& lines@[k].value@ == self@.items[k].value_view()
                        &&& lines@[k].state == item_state(k, self@.index as int, self@.selecting)
                    },
            decreases SIZE - i,
        {
            let item = self.items[i];
            let (title, value) = item.as_str();
            let state = if i == self.index {
                if self.selecting {
                    MenuItemState::Selecting
                } else {
                    MenuItemState::Selected
                }
            } else {
                MenuItemState::Unselected
            };
            lines.push(MenuItemRender { position: i, title, value, state });
            i += 1;
        }
        lines
    }
}

/// Pressing the encoder button twice leaves a menu as it was.
pub proof fn lemma_select_twice<T, I>(m: MenuView<T, I>)
    ensures
        menu_selected(menu_selected(m)) == m,
{
}

/// Moving the current line forward and then back by the same amount returns to the same line.
pub proof fn lemma_wrap_undo(index: int, step: int, size: int)
    requires
        0 <= index < size,
    ensures
        wrap_index(wrap_index(index, step, size), -step, size) == index,
{
    let a = index + step;
    let r = a % size;
    vstd::arithmetic::div_mod::lemma_fundamental_div_mod(a, size);
    let q = a / size;
    assert(r - step == index + (-q) * size) by (nonlinear_arith)
        requires
            a == size * q + r,
            a == index + step,
    ;
    vstd::arithmetic::div_mod::lemma_fundamental_div_mod_converse_mod(r - step, size, -q, index);
}

/// While choosing lines, turning the encoder by `step` and back by `-step` returns to the same
/// line and leaves the items and the value alone; nothing is reported.
pub proof fn lemma_line_move_undo<T, I: MenuItem<T>>(m: MenuView<T, I>, step: i32)
    requires
        menu_wf(m),
        m.selecting,
        menu_can_change(m, step),
        step > i32::MIN,
        menu_can_change(menu_changed(m, step).0, -step as i32),
    ensures
        menu_changed(m, step).1 is None,
        menu_changed(menu_changed(m, step).0, (-step) as i32).0 == m,
{
    lemma_wrap_undo(m.index as int, step as int, m.items.len() as int);
}

/// Turning a number forward and back by the same amount restores it, unless it was held at
/// zero on the way; turning never leaves a number that the sum does not give or zero.
pub proof fn lemma_numeric_undo(v: u32, step: i32)
    requires
        v <= i32::MAX,
        step > i32::MIN,
        numeric_can_step(v, step),
        v + step >= 0,
    ensures
        numeric_stepped(v, step) == v + step,
        numeric_can_step(numeric_stepped(v, step), (-step) as i32),
        numeric_stepped(numeric_stepped(v, step), (-step) as i32) == v,
{
}

/// Two turns of a flag item leave it as it was.
pub proof fn lemma_boolean_twice<'a, T: SetField<bool>>(item: BooleanMenuItem<'a>, s1: i32, s2: i32)
    ensures
        <BooleanMenuItem<'a> as MenuItem<T>>::changed(
            &<BooleanMenuItem<'a> as MenuItem<T>>::changed(&item, s1),
            s2,
        ) == item,
{
}

/// A turn never changes whether lines are being chosen. While choosing, it only moves the
/// current line, leaving items and value alone and reporting nothing; while editing, it stays
/// on the current line, changes only that line's item, and reports the menu's new value.
pub proof fn lemma_turn_keeps_mode<T, I: MenuItem<T>>(m: MenuView<T, I>, step: i32)
    requires
        menu_wf(m),
        m.items.len() > 0,
    ensures
        menu_changed(m, step).0.selecting == m.selecting,
        menu_changed(m, step).0.title == m.title,
        m.selecting ==> {
            &&& menu_changed(m, step).0.items == m.items
            &&& menu_changed(m, step).0.value == m.value
            &&& menu_changed(m, step).1 is None
        },
        !m.selecting ==> {
            &&& menu_changed(m, step).0.index == m.index
            &&& menu_changed(m, step).0.items.len() == m.items.len()
            &&& forall|j: int|
                0 <= j < m.items.len() && j != m.index ==> menu_changed(m, step).0.items[j]
                    == m.items[j]
            &&& menu_changed(m, step).1 == Some(menu_changed(m, step).0.value)
        },
{
}

} // verus!
