#[test]
pub fn test_riscv() {
    // riscv is not part of the debian 12 xz package, so there is no stream
    // to check here.
}
