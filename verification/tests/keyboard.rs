use voice_relay::inline_data_keyboard::{InlineDataKeyboard, InlineDataKeyboardButton};

fn buttons(names: &[&str]) -> Vec<InlineDataKeyboardButton> {
    names
        .iter()
        .map(|name| InlineDataKeyboardButton {
            text: (*name).to_owned(),
            data: format!("data:{}", name),
        })
        .collect()
}

#[test]
fn five_buttons_in_rows_of_two() {
    let keyboard = InlineDataKeyboard::new()
        .chunk_size(2)
        .buttons(buttons(&["a", "b", "c", "d", "e"]));
    let rows = keyboard.build_inline_keyboard();
    assert_eq!(rows.len(), 3);
    assert_eq!(rows[0].len(), 2);
    assert_eq!(rows[1].len(), 2);
    assert_eq!(rows[2].len(), 1);
    let texts: Vec<Vec<&str>> = rows
        .iter()
        .map(|row| row.iter().map(|cell| cell.text.as_str()).collect())
        .collect();
    assert_eq!(texts, vec![vec!["a", "b"], vec!["c", "d"], vec!["e"]]);
    let indexes: Vec<Vec<usize>> = rows
        .iter()
        .map(|row| row.iter().map(|cell| cell.index).collect())
        .collect();
    assert_eq!(indexes, vec![vec![0, 1], vec![2, 3], vec![4]]);
}

#[test]
fn default_row_width_is_three() {
    let keyboard = InlineDataKeyboard::new().buttons(buttons(&["a", "b", "c", "d"]));
    let rows = keyboard.build_inline_keyboard();
    assert_eq!(rows.len(), 2);
    assert_eq!(rows[0].len(), 3);
    assert_eq!(rows[1].len(), 1);
    assert_eq!(rows[1][0].index, 3);
}

#[test]
fn no_buttons_make_no_rows() {
    let keyboard = InlineDataKeyboard::new().buttons(Vec::new());
    assert_eq!(keyboard.build_inline_keyboard().len(), 0);
}

#[test]
fn an_exact_multiple_fills_every_row() {
    let keyboard = InlineDataKeyboard::new()
        .chunk_size(3)
        .buttons(buttons(&["a", "b", "c", "d", "e", "f"]));
    let rows = keyboard.build_inline_keyboard();
    assert_eq!(rows.len(), 2);
    assert_eq!(rows[0].len(), 3);
    assert_eq!(rows[1].len(), 3);
    assert_eq!(rows[1][2].index, 5);
}
