use bellman_core::domain::domain_size;
use bellman_core::error::SynthesisError;

#[test]
fn domain_size_is_smallest_power_of_two() {
    assert_eq!(domain_size(0).unwrap(), (1, 0));
    assert_eq!(domain_size(1).unwrap(), (1, 0));
    assert_eq!(domain_size(2).unwrap(), (2, 1));
    assert_eq!(domain_size(5).unwrap(), (8, 3));
    assert_eq!(domain_size(256).unwrap(), (256, 8));
    assert_eq!(domain_size(257).unwrap(), (512, 9));
}

#[test]
fn domain_size_largest_supported() {
    assert_eq!(domain_size(1usize << 31).unwrap(), (1usize << 31, 31));
    assert_eq!(domain_size((1usize << 31) + 1).unwrap_err(), SynthesisError::PolynomialDegreeTooLarge);
}
