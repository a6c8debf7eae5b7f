use solid::abi::{SOLID_ERR_NOTREADY, SOLID_ERR_OK, SOLID_ERR_PAR};
use solid::bcm2711::{Dma0Registers, Vpa, BASE_DMA0};
use solid::error::Error;
use solid::fs::{to_solid_path, RawPath};
use solid::smp::{
    check_target_processor, for_each_cpu_result, num_processors, request_exec_result,
    ProcessorSet, RemoteCallError,
};
use solid::loader::{Loader, NotFoundError, RegisterSymbolError};
use solid::staticenv::{env_table, getenv_impl, str_table, str_table_len};
use solid::abi::{SOLID_ERR_NOMEM, SOLID_ERR_NOTFOUND};
use solid::thread::CpuCx;

#[test]
fn error_codes() {
    assert_eq!(Error::from_raw(0), None);
    assert_eq!(Error::from_raw(5), None);
    assert_eq!(Error::from_raw(-17).map(|e| e.get()), Some(-17));
    assert_eq!(Error::err_if_negative(42), Ok(42));
    assert_eq!(Error::err_if_negative(0), Ok(0));
    assert_eq!(Error::err_if_negative(-1000).map_err(|e| e.get()), Err(-1000));
}

#[test]
fn processor_sets() {
    assert_eq!(ProcessorSet::single(0).as_u32_bits(), 1);
    assert_eq!(ProcessorSet::single(3).as_u32_bits(), 8);
    assert_eq!(ProcessorSet::all().as_u32_bits(), 0xf);
    assert_eq!(ProcessorSet::from_bits_truncating(0xffff_fff5).as_u32_bits(), 0x5);
    assert_eq!(num_processors(), 4);
}

#[test]
fn remote_call_decisions() {
    assert_eq!(check_target_processor(3), Ok(()));
    assert_eq!(check_target_processor(4), Err(RemoteCallError::BadProcessor));
    assert_eq!(request_exec_result(SOLID_ERR_OK), Ok(()));
    assert_eq!(request_exec_result(SOLID_ERR_NOTREADY), Err(RemoteCallError::NotReady));
    assert_eq!(request_exec_result(SOLID_ERR_PAR), Err(RemoteCallError::BadProcessor));
    assert_eq!(for_each_cpu_result(SOLID_ERR_OK), Ok(()));
    assert_eq!(for_each_cpu_result(SOLID_ERR_NOTREADY), Err(RemoteCallError::NotReady));
}

#[test]
fn cpu_context_address() {
    assert_eq!(CpuCx::new(0xdead_0000).as_raw(), 0xdead_0000);
}

#[test]
fn videocore_addresses() {
    assert_eq!(Vpa(0x4_7e20_0000).to_arm_pa(), Some(0xfe20_0000));
    assert_eq!(Vpa(0x4_7c00_0000).to_arm_pa(), Some(0xfc00_0000));
    assert_eq!(Vpa(0x4_7fff_ffff).to_arm_pa(), Some(0xffff_ffff));
    assert_eq!(Vpa(0x4_7bff_ffff).to_arm_pa(), None);
    assert_eq!(Vpa(0x4_8000_0000).to_arm_pa(), None);
}

#[test]
fn dma_register_blocks() {
    let d = Dma0Registers::new();
    assert_eq!(d.base(), Vpa(BASE_DMA0));
    assert_eq!(d.dma0().0, Vpa(0x4_7e00_7000));
    assert_eq!(d.dma1().0, Vpa(0x4_7e00_7100));
    assert_eq!(d.dma2().0, Vpa(0x4_7e00_7200));
    assert_eq!(d.dma3().0, Vpa(0x4_7e00_7300));
    assert_eq!(d.dma4().0, Vpa(0x4_7e00_7400));
    assert_eq!(d.dma5().0, Vpa(0x4_7e00_7500));
    assert_eq!(d.dma6().0, Vpa(0x4_7e00_7600));
    assert_eq!(d.dma7().0, Vpa(0x4_7e00_7700));
    assert_eq!(d.dma8().0, Vpa(0x4_7e00_7800));
    assert_eq!(d.dma9().0, Vpa(0x4_7e00_7900));
    assert_eq!(d.dma10().0, Vpa(0x4_7e00_7a00));
    assert_eq!(d.dma11().0, Vpa(0x4_7e00_7b00));
    assert_eq!(d.dma12().0, Vpa(0x4_7e00_7c00));
    assert_eq!(d.dma13().0, Vpa(0x4_7e00_7d00));
    assert_eq!(d.dma14().0, Vpa(0x4_7e00_7e00));
    assert_eq!(Dma0Registers::at(Vpa(0x1000)).dma11().0, Vpa(0x1b00));
}

#[test]
fn solid_paths() {
    assert_eq!(to_solid_path(br"\SD\a.txt"), Some(b"\\TS\\SD\\a.txt\0".to_vec()));
    assert_eq!(to_solid_path(b"relative"), None);
    assert_eq!(to_solid_path(b""), None);
    assert_eq!(to_solid_path(b"\\a\0b"), None);
    assert_eq!(to_solid_path(b"\\"), Some(vec![b'\\', b'T', b'S', b'\\', 0]));
    assert_eq!(RawPath::new("\\raw").into_inner(), "\\raw");
}

#[test]
fn environment_tables() {
    let proto: &[(&[u8], &[u8])] = &[(b"HOME", b"/root"), (b"X", b""), (b"LANG", b"C")];
    assert_eq!(str_table_len(proto), 11 + 3 + 7);
    let table = str_table(proto);
    assert_eq!(table, b"HOME=/root\0X=\0LANG=C\0".to_vec());
    assert_eq!(env_table(&table), vec![0, 11, 14]);
    assert_eq!(str_table_len(&[]), 0);
    assert_eq!(str_table(&[]), Vec::<u8>::new());
    assert_eq!(env_table(&[]), Vec::<usize>::new());
}

#[test]
fn environment_lookup() {
    let proto: &[(&[u8], &[u8])] = &[(b"HOME", b"/root"), (b"X", b""), (b"LANG", b"C"), (b"HOME", b"/other")];
    let table = str_table(proto);
    let entries = env_table(&table);
    assert_eq!(getenv_impl(&table, &entries, b"HOME"), Some(5));
    assert_eq!(&table[5..10], b"/root");
    assert_eq!(getenv_impl(&table, &entries, b"X"), Some(13));
    assert_eq!(getenv_impl(&table, &entries, b"LANG"), Some(19));
    assert_eq!(getenv_impl(&table, &entries, b"HOM"), None);
    assert_eq!(getenv_impl(&table, &entries, b"HOMES"), None);
    assert_eq!(getenv_impl(&table, &entries, b"A=B"), None);
    assert_eq!(getenv_impl(&table, &entries, b""), None);
}

#[test]
fn loader_statuses() {
    let l = Loader::global_unchecked();
    assert_eq!(l.symbol_value(SOLID_ERR_OK, 0x8000), Ok(0x8000));
    assert_eq!(l.symbol_value(SOLID_ERR_NOTFOUND, 0x8000), Err(NotFoundError));
    assert_eq!(l.symbol_value_in_object(SOLID_ERR_PAR, 1), Err(NotFoundError));
    assert_eq!(l.symbol_value_in_object(SOLID_ERR_OK, 1), Ok(1));
    assert_eq!(l.object_entry_addr(1, 0x40), Ok(0x40));
    assert_eq!(l.object_entry_addr(SOLID_ERR_NOTFOUND, 0x40), Err(NotFoundError));
    assert_eq!(l.is_object_ready(0), Ok(false));
    assert_eq!(l.is_object_ready(1), Ok(true));
    assert_eq!(l.is_object_ready(SOLID_ERR_NOTFOUND), Err(NotFoundError));
    assert_eq!(l.unload_object(SOLID_ERR_OK), Ok(()));
    assert_eq!(l.unload_object(SOLID_ERR_NOTFOUND), Err(NotFoundError));
    assert_eq!(l.register_symbol(SOLID_ERR_OK), Ok(()));
    assert_eq!(l.register_symbol(SOLID_ERR_NOMEM), Err(RegisterSymbolError::OutOfMemory));
}
