use quark_core::fs::attr::Dirent;
use quark_core::fs::attr::Inode;
use quark_core::fs::attr::InodeFileType;
use quark_core::fs::attr::UnstableAttr;
use quark_core::loader::loader::CreateStack;
use quark_core::loader::loader::Load;
use quark_core::loader::loader::LoadExecutable;
use quark_core::loader::loader::LoadStep;
use quark_core::loader::loader::LoadVDSO;
use quark_core::loader::loader::LoadedElf;
use quark_core::loader::loader::MapVDSOPage;
use quark_core::loader::loader::MapVDSOParamPage;
use quark_core::loader::loader::MayLoad;
use quark_core::loader::loader::OpenPath;
use quark_core::loader::loader::SetupUserStack;
use quark_core::loader::loader::SliceCompare;
use quark_core::loader::loader::ThreadName;
use quark_core::loader::loader::MAX_LOADER_ATTEMPTS;
use quark_core::loader::user_stack::AuxEntry;
use quark_core::loader::user_stack::AuxVec;
use quark_core::memmgr::AccessType;
use quark_core::memmgr::MMapOpts;
use quark_core::memmgr::MapHint;
use quark_core::memmgr::MemoryManager;
use quark_core::memmgr::Range;
use quark_core::memmgr::MAX_USER_ADDR;
use quark_core::memmgr::MIN_USER_ADDR;
use quark_core::qlib::common::Error;
use quark_core::qlib::common::SysErr;

fn dirent(kind: InodeFileType) -> Dirent {
    Dirent {
        Inode: Inode { InodeId: 5, Type: kind, WouldBlock: false, Attr: UnstableAttr { Size: 0, Usage: 0, Links: 1 } },
    }
}

fn strs(v: &[&str]) -> Vec<Vec<u8>> {
    v.iter().map(|s| s.as_bytes().to_vec()).collect()
}

#[test]
fn slice_compare() {
    assert!(SliceCompare(&[], &[]));
    assert!(SliceCompare(&[1, 2, 3], &[1, 2, 3]));
    assert!(!SliceCompare(&[1, 2, 3], &[1, 2, 4]));
    assert!(!SliceCompare(&[1, 2, 3], &[1, 2]));
    assert!(!SliceCompare(&[], &[0]));
}

#[test]
fn loader_tells_images_from_scripts() {
    let ok: Result<usize, Error> = Ok(4);
    assert_eq!(LoadExecutable(0, &ok, b"\x7fELF"), LoadStep::LoadElf);
    assert_eq!(LoadExecutable(0, &ok, b"#!/b"), LoadStep::RunInterpreter);
    assert_eq!(LoadExecutable(5, &ok, b"#! s"), LoadStep::RunInterpreter);
    assert_eq!(LoadExecutable(0, &ok, b"MZ\x90\x00"), LoadStep::Fail(SysErr::ENOEXEC));
    assert_eq!(LoadExecutable(0, &ok, b"\x7fELG"), LoadStep::Fail(SysErr::ENOEXEC));
    assert_eq!(LoadExecutable(0, &Ok(3), b"\x7fELF"), LoadStep::Fail(SysErr::ENOEXEC));
    let failed: Result<usize, Error> = Err(Error::SysError(SysErr::EIO));
    assert_eq!(LoadExecutable(0, &failed, b"\x7fELF"), LoadStep::Fail(SysErr::ENOEXEC));
}

#[test]
fn six_files_may_be_tried_and_no_seventh() {
    for attempt in 0..MAX_LOADER_ATTEMPTS {
        assert!(MayLoad(attempt));
    }
    assert!(MayLoad(5));
    assert!(!MayLoad(6));
    assert!(!MayLoad(7));
    assert!(!MayLoad(usize::MAX));
}

#[test]
fn loader_gives_up_after_six_attempts() {
    assert_eq!(MAX_LOADER_ATTEMPTS, 6);
    let ok: Result<usize, Error> = Ok(4);
    let mut followed = 0;
    let mut attempt = 0;
    loop {
        match LoadExecutable(attempt, &ok, b"#!/x") {
            LoadStep::RunInterpreter => followed += 1,
            LoadStep::Fail(e) => {
                assert_eq!(e, SysErr::ENOEXEC);
                break;
            }
            LoadStep::LoadElf => panic!("a script was taken for an image"),
        }
        attempt += 1;
    }
    assert_eq!(followed, 6);
    assert_eq!(LoadExecutable(6, &ok, b"\x7fELF"), LoadStep::Fail(SysErr::ENOEXEC));
}

#[test]
fn open_path_checks() {
    let file = dirent(InodeFileType::RegularFile);
    let dir = dirent(InodeFileType::Directory);
    let flags = OpenPath(b"/bin/ls", &file, Ok(())).unwrap();
    assert!(flags.Read && !flags.Write);
    assert_eq!(OpenPath(b"/bin/", &dir, Ok(())), Err(Error::SysError(SysErr::ENOTDIR)));
    assert!(OpenPath(b"/bin", &dir, Ok(())).is_ok());
    assert!(OpenPath(b"/bin/ls/", &file, Ok(())).is_ok());
    assert!(OpenPath(b"", &dir, Ok(())).is_ok());
    assert_eq!(OpenPath(b"/bin/", &dir, Err(Error::SysError(13))), Err(Error::SysError(13)));
}

#[test]
fn memory_manager_maps() {
    let mut mm = MemoryManager::New();
    assert_eq!(mm.FindAvailableSeg(0, 0x3000), Ok(MIN_USER_ADDR));
    let mut o = MMapOpts::NewAnonOptions(MapHint::Anon);
    assert_eq!(mm.MMap(&o), Err(Error::SysError(SysErr::EINVAL)));
    o.Length = 0x1001;
    assert_eq!(mm.MMap(&o), Err(Error::SysError(SysErr::EINVAL)));
    o.Length = 0x2000;
    assert_eq!(mm.MMap(&o), Ok(MIN_USER_ADDR));
    assert_eq!(mm.MMap(&o), Ok(MIN_USER_ADDR + 0x2000));
    o.Fixed = true;
    o.Addr = 0x40_0800;
    assert_eq!(mm.MMap(&o), Err(Error::SysError(SysErr::EINVAL)));
    o.Addr = 0x40_0000;
    assert_eq!(mm.MMap(&o), Ok(0x40_0000));
    assert_eq!(mm.FindAvailableSeg(0, 0x1000), Ok(0x40_2000));
    o.Addr = MAX_USER_ADDR - 0x1000;
    assert_eq!(mm.MMap(&o), Err(Error::SysError(12)));
    assert_eq!(mm.FindAvailableSeg(0, MAX_USER_ADDR), Err(Error::SysError(12)));
    assert_eq!(mm.vmas.len(), 3);
    assert_eq!(Range::New(0x1000, 0x2000).End(), 0x3000);
}

#[test]
fn vdso_is_one_page_of_values_and_two_of_code() {
    let mut mm = MemoryManager::New();
    assert_eq!(LoadVDSO(&mut mm, 0x9000_0000), Ok(MIN_USER_ADDR + 0x1000));
    assert_eq!(mm.vmas.len(), 2);
    let vvar = mm.vmas[0];
    assert_eq!(vvar.Hint, MapHint::Vvar);
    assert_eq!(vvar.Addr, MIN_USER_ADDR);
    assert_eq!(vvar.Length, 0x1000);
    assert_eq!(vvar.Offset, 0x9000_0000);
    assert_eq!(vvar.Perms, AccessType::ReadOnly());
    assert_eq!(vvar.MaxPerms, AccessType::ReadOnly());
    assert!(vvar.Fixed && vvar.Private && vvar.VDSO && !vvar.Kernel);
    let vdso = mm.vmas[1];
    assert_eq!(vdso.Hint, MapHint::Vdso);
    assert_eq!(vdso.Addr, MIN_USER_ADDR + 0x1000);
    assert_eq!(vdso.Length, 0x2000);
    assert_eq!(vdso.Offset, 0x9000_1000);
    assert_eq!(vdso.Perms, AccessType::Executable());
    assert!(vdso.Fixed && !vdso.Private && vdso.VDSO && !vdso.Kernel);
}

#[test]
fn vdso_without_room_is_enomem() {
    let mut mm = MemoryManager::New();
    let mut o = MMapOpts::NewAnonOptions(MapHint::Anon);
    o.Fixed = true;
    o.Length = 0x2000;
    o.Addr = MAX_USER_ADDR - 0x2000;
    mm.MMap(&o).unwrap();
    assert_eq!(LoadVDSO(&mut mm, 0x9000_0000), Err(Error::SysError(12)));
    assert_eq!(mm.vmas.len(), 1);
    assert_eq!(MapVDSOParamPage(&mut mm, 0x5000, 0), Ok(0x5000));
    assert_eq!(MapVDSOPage(&mut mm, 0x6001, 0), Err(Error::SysError(SysErr::EINVAL)));
}

#[test]
fn stack_is_eight_megabytes_below_the_top() {
    let mut mm = MemoryManager::New();
    let r = CreateStack(&mut mm).unwrap();
    assert_eq!(r, Range { start: MAX_USER_ADDR - 0x80_0000, len: 0x80_0000 });
    let s = mm.vmas[0];
    assert_eq!(s.Hint, MapHint::Stack);
    assert_eq!(s.Perms, AccessType::ReadWrite());
    assert!(s.Fixed && s.Private && s.GrowsDown && !s.VDSO);
}

#[test]
fn thread_names() {
    assert_eq!(ThreadName(b"/usr/bin/env"), b"env".to_vec());
    assert_eq!(ThreadName(b"env"), b"env".to_vec());
    assert_eq!(ThreadName(b"/a/very_long_program_name"), b"very_long_progr".to_vec());
    assert_eq!(ThreadName(b"/usr/bin/"), b"".to_vec());
    assert_eq!(ThreadName(b""), b"".to_vec());
}

fn elf() -> LoadedElf {
    LoadedElf { entry: 0x40_1000, start: 0x40_0000, end: 0x40_5123, auxv: vec![AuxEntry { Key: 9, Val: 0x40_1000 }] }
}

#[test]
fn user_stack_layout() {
    let top: u64 = 0x7000_0000;
    let argv = strs(&["prog", "-v"]);
    let envv = strs(&["A=1", "HOME=/"]);
    let extra = vec![AuxEntry { Key: 99, Val: 7 }];
    let plan = SetupUserStack(top, &elf(), &argv, &envv, &extra, 0x1_1000, 0x1111, 0x2222).unwrap();

    assert_eq!(plan.platform, top - 7);
    assert_eq!(plan.random, top - 23);
    assert_eq!(plan.rand1, 0x1111);
    assert_eq!(plan.rand2, 0x2222);
    assert_eq!(plan.execfn, top - 28);
    // 0x6fffffe4 rounded down to 16 bytes.
    let envv_end = 0x6fff_ffe0u64;
    assert_eq!(plan.layout.EnvvEnd, envv_end);
    assert_eq!(plan.envAddrs, vec![envv_end - 11, envv_end - 7]);
    assert_eq!(plan.layout.EnvvStart, envv_end - 11);
    assert_eq!(plan.layout.ArgvEnd, envv_end - 11);
    assert_eq!(plan.argAddrs, vec![envv_end - 19, envv_end - 14]);
    assert_eq!(plan.layout.ArgvStart, envv_end - 19);

    // 1 + 3 + 3 + 2 * 17 words.
    assert_eq!(plan.words.len(), 41);
    let unaligned = envv_end - 19 - 8 * 41;
    assert_eq!(plan.sp, unaligned - unaligned % 32);
    assert_eq!(plan.sp, 0x6fff_fe80);
    assert_eq!(plan.sp % 16, 0);

    let w = &plan.words;
    assert_eq!(w[0], 2);
    assert_eq!(&w[1..3], &plan.argAddrs[..]);
    assert_eq!(w[3], 0);
    assert_eq!(&w[4..6], &plan.envAddrs[..]);
    assert_eq!(w[6], 0);
    // The auxiliary vector, from the stack pointer up: the extra entry,
    // that of the image, the fixed ones, and the end marker last.
    let aux: Vec<(u64, u64)> = w[7..].chunks(2).map(|p| (p[0], p[1])).collect();
    assert_eq!(
        aux,
        vec![
            (99, 7),
            (9, 0x40_1000),
            (AuxVec::AT_SYSINFO_EHDR, 0x1_1000),
            (AuxVec::AT_HWCAP, 0xbfeb_fbff),
            (AuxVec::AT_PAGESZ, 4096),
            (AuxVec::AT_CLKTCK, 100),
            (AuxVec::AT_FLAGS, 0),
            (AuxVec::AT_UID, 0),
            (AuxVec::AT_EUID, 0),
            (AuxVec::AT_GID, 0),
            (AuxVec::AT_EGID, 0),
            (AuxVec::AT_SECURE, 0),
            (AuxVec::AT_RANDOM, top - 23),
            (AuxVec::AT_HWCAP2, 0),
            (AuxVec::AT_EXECFN, top - 28),
            (AuxVec::AT_PLATFORM, top - 7),
            (AuxVec::AT_NULL, 0),
        ]
    );
}

#[test]
fn user_stack_that_does_not_fit_is_efault() {
    let argv = strs(&["prog"]);
    let none: Vec<Vec<u8>> = Vec::new();
    let no_aux: Vec<AuxEntry> = Vec::new();
    let bare = LoadedElf { entry: 0, start: 0, end: 0, auxv: Vec::new() };
    for top in [0u64, 22, 27, 28, 100] {
        assert_eq!(
            SetupUserStack(top, &bare, &argv, &none, &no_aux, 0, 0, 0).err(),
            Some(Error::SysError(SysErr::EFAULT)),
            "top {}",
            top
        );
    }
    // The name must stand at 288 or above: rounded down to 16 bytes that
    // leaves room for the argument and for 34 words below.
    let least = 288 + 28;
    assert!(SetupUserStack(least - 1, &bare, &argv, &none, &no_aux, 0, 0, 0).is_err());
    let plan = SetupUserStack(least, &bare, &argv, &none, &no_aux, 0, 0, 0).unwrap();
    assert_eq!(plan.sp, 0);
}

#[test]
fn load_lays_out_the_address_space() {
    let mut mm = MemoryManager::New();
    let exe = dirent(InodeFileType::RegularFile);
    let argv = strs(&["/bin/prog"]);
    let envv = strs(&[]);
    let l = Load(&mut mm, &elf(), &exe, b"/bin/prog", &argv, &envv, &Vec::new(), 0x9000_0000, (1, 2), 0x5000_0000)
        .unwrap();
    assert_eq!(l.entry, 0x40_1000);
    assert_eq!(l.kernelsp, 0x5000_0000 + 0x8000 - 0x10);
    assert_eq!(l.name, b"prog".to_vec());
    assert_eq!(l.usersp, l.stack.sp);
    assert_eq!(l.stack.platform, MAX_USER_ADDR - 7);
    assert_eq!(mm.brk, 0x40_6000);
    assert_eq!(mm.executable, Some(exe));
    assert_eq!(mm.vmas.len(), 3);
    assert_eq!(mm.vmas[2].Hint, MapHint::Stack);
    // The vDSO address in the auxiliary vector is that of its code.
    let w = &l.stack.words;
    let at = w.len() - 2 * 15 + 2 * 0;
    assert_eq!((w[at - 2], w[at - 1]), (9, 0x40_1000));
    assert_eq!((w[at], w[at + 1]), (AuxVec::AT_SYSINFO_EHDR, MIN_USER_ADDR + 0x1000));
}

#[test]
fn load_of_an_image_that_ends_on_a_page_keeps_its_end() {
    let mut mm = MemoryManager::New();
    let exe = dirent(InodeFileType::RegularFile);
    let mut image = elf();
    image.end = 0x40_5000;
    Load(&mut mm, &image, &exe, b"p", &strs(&["p"]), &strs(&[]), &Vec::new(), 0, (1, 2), 0).unwrap();
    assert_eq!(mm.brk, 0x40_5000);
    let mut mm = MemoryManager::New();
    image.end = u64::MAX - 5;
    let r = Load(&mut mm, &image, &exe, b"p", &strs(&["p"]), &strs(&[]), &Vec::new(), 0, (1, 2), 0);
    assert_eq!(r.err(), Some(Error::SysError(SysErr::EINVAL)));
    assert_eq!(mm.vmas.len(), 2);
}
