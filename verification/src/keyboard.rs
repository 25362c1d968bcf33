//! The on-screen keyboard of the chat window: which buttons there are, what
//! each one is labelled, what pressing it does, and where it sits.

use vstd::prelude::*;

verus! {

/// What pressing a button does to the message being typed.
#[derive(Clone, Copy, Debug, PartialEq, Eq, Structural)]
pub enum KeyAction {
    /// Append the character to the message.
    Insert(char),
    /// Remove the last character of the message, if any.
    Backspace,
    /// Ask for the message to be sent.
    Submit,
}

/// Where a button sits. Letter and space buttons form a grid: the first button
/// of a row is below the first button of the row above it (the first row
/// starts at the left middle of the window), and every other button is to the
/// right of the one before it in its row. The two control buttons sit in the
/// bottom corners of the window.
#[derive(Clone, Copy, Debug, PartialEq, Eq, Structural)]
pub enum Place {
    Grid { row: usize, col: usize },
    BottomLeft,
    BottomRight,
}

/// The model of a [`KeyButton`].
pub struct KeyButtonView {
    pub label: Seq<char>,
    pub action: KeyAction,
    pub place: Place,
    pub wide: bool,
}

/// One button of the keyboard. `wide` buttons are drawn wider than the
/// square letter buttons.
#[derive(Debug)]
pub struct KeyButton {
    pub label: String,
    pub action: KeyAction,
    pub place: Place,
    pub wide: bool,
}

impl View for KeyButton {
    type V = KeyButtonView;

    open spec fn view(&self) -> KeyButtonView {
        KeyButtonView { label: self.label@, action: self.action, place: self.place, wide: self.wide }
    }
}

/// The letters of the three letter rows, top to bottom.
pub open spec fn letter_rows() -> Seq<Seq<char>> {
    seq![
        seq!['Q', 'W', 'E', 'R', 'T', 'Y', 'U', 'I', 'O', 'P'],
        seq!['A', 'S', 'D', 'F', 'G', 'H', 'J', 'K', 'L'],
        seq!['Z', 'X', 'C', 'V', 'B', 'N', 'M'],
    ]
}

/// The label shown on the button of a letter: the letter itself, except that
/// the button of `B` is labelled `V`.
pub open spec fn letter_label(letter: char) -> char {
    if letter == 'B' {
        'V'
    } else {
        letter
    }
}

/// The button of the letter in row `row`, column `col`.
pub open spec fn letter_button(row: int, col: int) -> KeyButtonView {
    let letter = letter_rows()[row][col];
    KeyButtonView {
        label: seq![letter_label(letter)],
        action: KeyAction::Insert(letter),
        place: Place::Grid { row: row as usize, col: col as usize },
        wide: false,
    }
}

/// The buttons of letter row `row`, left to right.
pub open spec fn row_buttons(row: int) -> Seq<KeyButtonView> {
    Seq::new(letter_rows()[row].len(), |col: int| letter_button(row, col))
}

/// The space bar, alone in the fourth row.
pub open spec fn space_button() -> KeyButtonView {
    KeyButtonView {
        label: "Space"@,
        action: KeyAction::Insert(' '),
        place: Place::Grid { row: 3, col: 0 },
        wide: true,
    }
}

/// The backspace button, bottom left.
pub open spec fn backspace_button() -> KeyButtonView {
    KeyButtonView {
        label: "Backspace"@,
        action: KeyAction::Backspace,
        place: Place::BottomLeft,
        wide: true,
    }
}

/// The submit button, bottom right.
pub open spec fn submit_button() -> KeyButtonView {
    KeyButtonView {
        label: "Submit"@,
        action: KeyAction::Submit,
        place: Place::BottomRight,
        wide: true,
    }
}

/// The whole keyboard: the three letter rows, the space bar, then the
/// backspace and submit buttons.
pub open spec fn keyboard_layout() -> Seq<KeyButtonView> {
    row_buttons(0) + row_buttons(1) + row_buttons(2) + seq![
        space_button(),
        backspace_button(),
        submit_button(),
    ]
}

/// The button of one letter.
fn make_letter_button(letter: char, row: usize, col: usize) -> (button: KeyButton)
    ensures
        button@ == (KeyButtonView {
            label: seq![letter_label(letter)],
            action: KeyAction::Insert(letter),
            place: Place::Grid { row, col },
            wide: false,
        }),
{
    let mut label = String::new();
    if letter == 'B' {
        label.push('V');
    } else {
        label.push(letter);
    }
    KeyButton { label, action: KeyAction::Insert(letter), place: Place::Grid { row, col }, wide: false }
}

/// Appends the buttons of one letter row.
fn push_row(buttons: &mut Vec<KeyButton>, letters: &[char], row: usize)
    requires
        row < 3,
        letters@ == letter_rows()[row as int],
    ensures
        final(buttons)@.map_values(|b: KeyButton| b@) == old(buttons)@.map_values(|b: KeyButton| b@)
            + row_buttons(row as int),
{
    let ghost start = old(buttons)@.map_values(|b: KeyButton| b@);
    let n = letters.len();
    let mut col: usize = 0;
    while col < n
        invariant
            n == letters@.len(),
            row < 3,
            letters@ == letter_rows()[row as int],
            col <= n,
            buttons@.map_values(|b: KeyButton| b@) == start + row_buttons(row as int).take(col as int),
        decreases n - col,
    {
        let button = make_letter_button(letters[col], row, col);
        let ghost before = buttons@;
        buttons.push(button);
        assert(buttons@.map_values(|b: KeyButton| b@) =~= before.map_values(|b: KeyButton| b@).push(
            letter_button(row as int, col as int),
        ));
        assert(row_buttons(row as int).take(col + 1) == row_buttons(row as int).take(col as int).push(
            letter_button(row as int, col as int),
        ));
        col = col + 1;
    }
    assert(row_buttons(row as int).take(n as int) == row_buttons(row as int));
}

/// The buttons of the on-screen keyboard, in the order of
/// [`keyboard_layout`].
pub fn keyboard() -> (buttons: Vec<KeyButton>)
    ensures
        buttons@.map_values(|b: KeyButton| b@) == keyboard_layout(),
{
    let top: [char; 10] = ['Q', 'W', 'E', 'R', 'T', 'Y', 'U', 'I', 'O', 'P'];
    let middle: [char; 9] = ['A', 'S', 'D', 'F', 'G', 'H', 'J', 'K', 'L'];
    let bottom: [char; 7] = ['Z', 'X', 'C', 'V', 'B', 'N', 'M'];
    let mut buttons: Vec<KeyButton> = Vec::new();
    assert(buttons@.map_values(|b: KeyButton| b@) == Seq::<KeyButtonView>::empty());
    assert(top@ == letter_rows()[0]);
    push_row(&mut buttons, top.as_slice(), 0);
    assert(middle@ == letter_rows()[1]);
    push_row(&mut buttons, middle.as_slice(), 1);
    assert(bottom@ == letter_rows()[2]);
    push_row(&mut buttons, bottom.as_slice(), 2);
    let ghost rows = buttons@.map_values(|b: KeyButton| b@);
    buttons.push(
        KeyButton {
            label: "Space".to_owned(),
            action: KeyAction::Insert(' '),
            place: Place::Grid { row: 3, col: 0 },
            wide: true,
        },
    );
    buttons.push(
        KeyButton {
            label: "Backspace".to_owned(),
            action: KeyAction::Backspace,
            place: Place::BottomLeft,
            wide: true,
        },
    );
    buttons.push(
        KeyButton {
            label: "Submit".to_owned(),
            action: KeyAction::Submit,
            place: Place::BottomRight,
            wide: true,
        },
    );
    assert(buttons@.map_values(|b: KeyButton| b@) == rows + seq![
        space_button(),
        backspace_button(),
        submit_button(),
    ]);
    buttons
}

/// Every letter button inserts its letter, and is labelled with it, except
/// the button of `B`, which is labelled `V`.
pub proof fn lemma_letter_buttons(row: int, col: int)
    requires
        0 <= row < 3,
        0 <= col < letter_rows()[row].len(),
    ensures
        letter_button(row, col).action == KeyAction::Insert(letter_rows()[row][col]),
        letter_rows()[row][col] != 'B' ==> letter_button(row, col).label == seq![
            letter_rows()[row][col],
        ],
        letter_rows()[row][col] == 'B' ==> letter_button(row, col).label == seq!['V'],
{
}

/// The grid is gapless: in each letter row, the button at index `col` of the
/// row sits in that row at column `col`, and the rows hold ten, nine and
/// seven buttons.
pub proof fn lemma_grid_gapless(row: int, col: int)
    requires
        0 <= row < 3,
        0 <= col < row_buttons(row).len(),
    ensures
        row_buttons(row)[col].place == (Place::Grid { row: row as usize, col: col as usize }),
        row_buttons(0).len() == 10,
        row_buttons(1).len() == 9,
        row_buttons(2).len() == 7,
{
}

/// The shape of the keyboard: 29 buttons; the 26 letter buttons come first
/// and are square; then the space bar, alone at the start of the fourth row,
/// and the backspace and submit buttons in the bottom left and bottom right
/// corners, all three wide.
pub proof fn lemma_keyboard_shape()
    ensures
        keyboard_layout().len() == 29,
        forall|i: int| 0 <= i < 26 ==> !(#[trigger] keyboard_layout()[i]).wide,
        forall|i: int| 26 <= i < 29 ==> (#[trigger] keyboard_layout()[i]).wide,
        keyboard_layout()[26].action == KeyAction::Insert(' '),
        keyboard_layout()[26].place == (Place::Grid { row: 3, col: 0 }),
        keyboard_layout()[26].label == "Space"@,
        keyboard_layout()[27].action == KeyAction::Backspace,
        keyboard_layout()[27].place == Place::BottomLeft,
        keyboard_layout()[27].label == "Backspace"@,
        keyboard_layout()[27].wide,
        keyboard_layout()[28].action == KeyAction::Submit,
        keyboard_layout()[28].place == Place::BottomRight,
        keyboard_layout()[28].label == "Submit"@,
        keyboard_layout()[28].wide,
{
    let layout = keyboard_layout();
    let letters = row_buttons(0) + row_buttons(1) + row_buttons(2);
    assert(letters.len() == 26);
    assert forall|i: int| 0 <= i < 26 implies !(#[trigger] keyboard_layout()[i]).wide by {
        assert(layout[i] == letters[i]);
        if i < 10 {
            assert(letters[i] == row_buttons(0)[i]);
        } else if i < 19 {
            assert(letters[i] == row_buttons(1)[i - 10]);
        } else {
            assert(letters[i] == row_buttons(2)[i - 19]);
        }
    }
    assert(layout[26] == space_button());
    assert(layout[27] == backspace_button());
    assert(layout[28] == submit_button());
}

/// The letter buttons, in order, insert the letters of the rows
/// `QWERTYUIOP`, `ASDFGHJKL` and `ZXCVBNM`, each placed at its row and
/// column, and each labelled with its letter except `B`, labelled `V`.
pub proof fn lemma_letter_order(i: int)
    requires
        0 <= i < 26,
    ensures
        ({
            let qwerty = seq![
                'Q', 'W', 'E', 'R', 'T', 'Y', 'U', 'I', 'O', 'P',
                'A', 'S', 'D', 'F', 'G', 'H', 'J', 'K', 'L',
                'Z', 'X', 'C', 'V', 'B', 'N', 'M',
            ];
            let button = keyboard_layout()[i];
            &&& button.action == KeyAction::Insert(qwerty[i])
            &&& qwerty[i] != 'B' ==> button.label == seq![qwerty[i]]
            &&& qwerty[i] == 'B' ==> button.label == seq!['V']
            &&& i < 10 ==> button.place == (Place::Grid { row: 0, col: i as usize })
            &&& 10 <= i < 19 ==> button.place == (Place::Grid { row: 1, col: (i - 10) as usize })
            &&& 19 <= i ==> button.place == (Place::Grid { row: 2, col: (i - 19) as usize })
        }),
{
    let layout = keyboard_layout();
    let letters = row_buttons(0) + row_buttons(1) + row_buttons(2);
    assert(layout[i] == letters[i]);
    if i < 10 {
        assert(letters[i] == row_buttons(0)[i]);
    } else if i < 19 {
        assert(letters[i] == row_buttons(1)[i - 10]);
    } else {
        assert(letters[i] == row_buttons(2)[i - 19]);
    }
}

} // verus!
