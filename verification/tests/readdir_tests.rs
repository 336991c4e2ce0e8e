use dragonos_kernel::errno::SystemError;
use dragonos_kernel::readdir::FilldirContext;

#[test]
fn record_lengths_round_up_to_eight() {
    let mut c = FilldirContext::new(1000);
    assert_eq!(c.fill_dir("a", 0, 1, 8), Ok(()));
    assert_eq!(c.header_at(0), (1, 0, 24, 8));
    assert_eq!(c.fill_dir("abcde", 1, 2, 4), Ok(()));
    assert_eq!(c.header_at(1), (2, 1, 32, 4));
    assert_eq!(c.fill_dir("abcd", 2, 3, 4), Ok(()));
    assert_eq!(c.header_at(2), (3, 2, 24, 4));
    assert_eq!(c.remain_size(), 1000 - 80);
    assert_eq!(c.name_at(1), "abcde");
}

#[test]
fn full_buffer_refuses_with_einval() {
    let mut c = FilldirContext::new(30);
    assert_eq!(c.fill_dir("a", 0, 1, 8), Ok(()));
    assert_eq!(c.fill_dir("b", 1, 1, 8), Err(SystemError::EINVAL));
    assert_eq!(c.len(), 1);
    assert_eq!(c.remain_size(), 6);
    let mut tiny = FilldirContext::new(10);
    assert_eq!(tiny.fill_dir("", 0, 1, 8), Err(SystemError::EINVAL));
    let mut exact = FilldirContext::new(24);
    assert_eq!(exact.fill_dir("", 0, 1, 8), Ok(()));
    assert_eq!(exact.remain_size(), 0);
}

#[test]
fn error_is_recorded() {
    let mut c = FilldirContext::new(10);
    assert_eq!(c.error(), None);
    c.set_error(SystemError::EPERM);
    assert_eq!(c.error(), Some(SystemError::EPERM));
}
