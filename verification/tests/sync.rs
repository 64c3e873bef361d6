use os_kernel_foundry::sync::SpinLock;

#[test]
fn spinlock_allows_mutation() {
    let mut lock = SpinLock::new(0usize);
    {
        let mut guard = lock.lock();
        *guard.get_mut() += 1;
    }

    let guard = lock.lock();
    assert_eq!(*guard, 1);
}

#[test]
fn spinlock_keeps_the_last_write() {
    let mut lock = SpinLock::new(vec![1u8]);
    {
        let mut guard = lock.lock();
        guard.get_mut().push(2);
        assert_eq!(*guard, vec![1, 2]);
    }
    {
        let mut guard = lock.lock();
        *guard.get_mut() = vec![5];
    }
    let guard = lock.lock();
    assert_eq!(guard.len(), 1);
    assert_eq!(guard[0], 5);
}
