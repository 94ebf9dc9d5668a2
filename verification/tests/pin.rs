use led::pin::{Error, Level, OutputPin, OutputPinMatrix};

#[test]
fn pin_keeps_the_level_it_was_made_with() {
    assert_eq!(OutputPin::new(Level::Low).level(), Level::Low);
    assert_eq!(OutputPin::new(Level::High).level(), Level::High);
}

#[test]
fn pin_goes_where_it_is_driven() {
    let mut pin = OutputPin::new(Level::Low);
    pin.set_high();
    assert_eq!(pin.level(), Level::High);
    pin.set_high();
    assert_eq!(pin.level(), Level::High);
    pin.set_low();
    assert_eq!(pin.level(), Level::Low);
    pin.drive(true);
    assert_eq!(pin.level(), Level::High);
    pin.drive(false);
    assert_eq!(pin.level(), Level::Low);
}

#[test]
fn new_matrix_is_all_off() {
    let matrix: OutputPinMatrix<2, 8> = OutputPinMatrix::new();
    assert_eq!(matrix.column(0), Some([false; 8]));
    assert_eq!(matrix.column(1), Some([false; 8]));
    assert_eq!(matrix.column(2), None);
}

#[test]
fn set_column_writes_one_column() {
    let mut matrix: OutputPinMatrix<3, 2> = OutputPinMatrix::new();
    assert_eq!(matrix.set_column(1, &[true, false]), Ok(()));
    assert_eq!(matrix.column(0), Some([false, false]));
    assert_eq!(matrix.column(1), Some([true, false]));
    assert_eq!(matrix.column(2), Some([false, false]));
    assert_eq!(matrix.set_column(2, &[true, true]), Ok(()));
    assert_eq!(matrix.set_column(1, &[false, true]), Ok(()));
    assert_eq!(matrix.column(0), Some([false, false]));
    assert_eq!(matrix.column(1), Some([false, true]));
    assert_eq!(matrix.column(2), Some([true, true]));
}

#[test]
fn set_column_refuses_a_column_that_is_not_there() {
    let mut matrix: OutputPinMatrix<2, 8> = OutputPinMatrix::new();
    assert_eq!(matrix.set_column(0, &[true; 8]), Ok(()));
    let before = matrix;
    assert_eq!(matrix.set_column(2, &[true; 8]), Err(Error::NoSuchColumn));
    assert_eq!(matrix.set_column(usize::MAX, &[true; 8]), Err(Error::NoSuchColumn));
    assert_eq!(matrix, before);
    assert_eq!(matrix.column(usize::MAX), None);
}

#[test]
fn matrix_without_columns_refuses_every_write() {
    let mut matrix: OutputPinMatrix<0, 8> = OutputPinMatrix::new();
    assert_eq!(matrix.set_column(0, &[true; 8]), Err(Error::NoSuchColumn));
    assert_eq!(matrix.column(0), None);
}
