use rust_api::errors::AppError;

#[test]
fn not_found_maps_to_404() {
    let e = AppError::NotFound;
    assert_eq!(e.status_code(), 404);
    assert_eq!(e.message(), "not found");
}

#[test]
fn validation_maps_to_400_with_its_message() {
    let e = AppError::Validation("title cannot be empty".to_string());
    assert_eq!(e.status_code(), 400);
    assert_eq!(e.message(), "title cannot be empty");
    let other = AppError::Validation("provide at least one field to update".to_string());
    assert_eq!(other.status_code(), 400);
    assert_eq!(other.message(), "provide at least one field to update");
}

#[test]
fn internal_maps_to_500_with_a_generic_message() {
    let e = AppError::Internal;
    assert_eq!(e.status_code(), 500);
    assert_eq!(e.message(), "internal error");
}
