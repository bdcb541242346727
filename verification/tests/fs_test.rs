use agplatform::FsImpl;

#[test]
fn test_fs_impl_new() {
    let _fs = FsImpl::new();
}
