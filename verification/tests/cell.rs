//! Cell behavior.

use ascii_canvas::Cell;
use ascii_canvas::CellStyle;

#[test]
fn test_cell_creation() {
    let cell = Cell::new('A');
    assert_eq!(cell.ch, 'A');
    assert!(cell.style.is_empty());
    assert!(!cell.is_empty());
    assert!(cell.is_visible());
}

#[test]
fn test_cell_default() {
    let cell = Cell::default();
    assert_eq!(cell.ch, ' ');
    assert!(cell.is_empty());
    assert!(!cell.is_visible());
}

#[test]
fn test_cell_clear() {
    let mut cell = Cell::new('X');
    cell.clear();
    assert!(cell.is_empty());
}

#[test]
fn test_cell_style_flags() {
    let style = CellStyle::bold().union(CellStyle::underline());

    assert!(style.contains(CellStyle::bold()));
    assert!(style.contains(CellStyle::underline()));
    assert!(!style.contains(CellStyle::italic()));
}

#[test]
fn test_cell_with_style() {
    let style = CellStyle::bold();
    let cell = Cell::with_style('A', style);

    assert_eq!(cell.ch, 'A');
    assert!(cell.style.contains(CellStyle::bold()));
}

#[test]
fn cell_test_cell_creation() {
    let cell = Cell::new('A');
    assert_eq!(cell.ch, 'A');
    assert!(cell.style.is_empty());
    assert!(!cell.is_empty());
    assert!(cell.is_visible());
}

#[test]
fn cell_test_cell_default() {
    let cell = Cell::default();
    assert_eq!(cell.ch, ' ');
    assert!(cell.is_empty());
    assert!(!cell.is_visible());
}

#[test]
fn test_cell_style() {
    let style = CellStyle::bold().union(CellStyle::underline());
    assert!(style.contains(CellStyle::bold()));
    assert!(style.contains(CellStyle::underline()));
    assert!(!style.contains(CellStyle::italic()));
}

#[test]
fn cell_test_cell_clear() {
    let mut cell = Cell::new('X');
    cell.clear();
    assert!(cell.is_empty());
}
