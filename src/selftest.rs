//! Boot-time self checks of the RISC-V platform support. Each one is proved to pass.
use vstd::prelude::*;
use crate::dtb::{DtbParser, MemoryRange};
use crate::mem::{KERNEL_BASE_PADDR, PHYS_MEMORY_BASE, PHYS_MEMORY_SIZE, PHYS_VIRT_OFFSET};
use crate::plic::{Plic, PlicError};

verus! {

/// Checks that a memory range keeps its fields, also when copied and cloned.
pub fn test_memory_range() -> (r: bool)
    ensures
        r,
{
    let range = MemoryRange { base: 0x8000_0000, size: 0x800_0000 };
    if range.base != 0x8000_0000 || range.size != 0x800_0000 {
        return false;
    }
    let range2 = range;
    if range.base != range2.base || range.size != range2.size {
        return false;
    }
    let range3 = range.clone();
    if range.base != range3.base || range.size != range3.size {
        return false;
    }
    true
}

/// Checks that the memory layout constants are set.
pub fn test_basic_constants() -> (r: bool)
    ensures
        r,
{
    PHYS_MEMORY_BASE > 0 && PHYS_MEMORY_SIZE > 0 && KERNEL_BASE_PADDR > 0 && PHYS_VIRT_OFFSET > 0
}

/// Checks that a missing blob and a blob without the magic number are refused.
pub fn test_dtb_parser_basic() -> (r: bool)
    ensures
        r,
{
    if DtbParser::new(Vec::new()).is_ok() {
        return false;
    }
    let mut invalid: Vec<u8> = Vec::new();
    let mut i: usize = 0;
    while i < 64
        invariant
            i <= 64,
            invalid@.len() == i,
            forall|k: int| 0 <= k < i ==> invalid@[k] == 0,
        decreases 64 - i,
    {
        invalid.push(0);
        i = i + 1;
    }
    if DtbParser::new(invalid).is_ok() {
        return false;
    }
    true
}

/// Checks what a parser reports when it is not valid, and when its blob is empty.
pub fn test_dtb_parser_info() -> (r: bool)
    ensures
        r,
{
    let parser = DtbParser::from_parts(Vec::new(), 0, 0, false);
    if parser.get_memory_ranges().len() != 0 {
        return false;
    }
    if parser.get_cpu_count() != 1 {
        return false;
    }
    if parser.get_timer_frequency().is_some() {
        return false;
    }
    if parser.get_uart_base().is_some() {
        return false;
    }
    if parser.get_plic_base().is_some() {
        return false;
    }
    let parser_valid = DtbParser::from_parts(Vec::new(), 0, 0, true);
    let memory_ranges = parser_valid.get_memory_ranges();
    if memory_ranges.len() != 1 {
        return false;
    }
    if memory_ranges[0].base != 0x8000_0000 || memory_ranges[0].size != 0x800_0000 {
        return false;
    }
    if parser_valid.get_cpu_count() != 1 {
        return false;
    }
    if !matches!(parser_valid.get_timer_frequency(), Some(10_000_000)) {
        return false;
    }
    if !matches!(parser_valid.get_uart_base(), Some(0x1000_0000)) {
        return false;
    }
    if !matches!(parser_valid.get_plic_base(), Some(0x0c00_0000)) {
        return false;
    }
    true
}

/// Checks that the PLIC refuses bad arguments, and requests before initialisation.
pub fn test_plic_basic_functionality() -> (r: bool)
    ensures
        r,
{
    let plic = Plic::new();
    if plic.is_initialized() {
        return false;
    }
    if !matches!(plic.set_priority(0, 1), Err(PlicError::InvalidInterruptId)) {
        return false;
    }
    if !matches!(plic.set_priority(1, 1), Err(PlicError::NotInitialized)) {
        return false;
    }
    if !matches!(plic.set_priority(1024, 1), Err(PlicError::InvalidInterruptId)) {
        return false;
    }
    if !matches!(plic.set_priority(1, 8), Err(PlicError::InvalidPriority)) {
        return false;
    }
    if !matches!(plic.set_threshold(8, 0), Err(PlicError::InvalidContextId)) {
        return false;
    }
    if !matches!(plic.set_threshold(0, 8), Err(PlicError::InvalidThreshold)) {
        return false;
    }
    true
}

/// Checks that every PLIC request is refused before initialisation.
pub fn test_plic_error_handling() -> (r: bool)
    ensures
        r,
{
    let plic = Plic::new();
    if !matches!(plic.set_priority(1, 1), Err(PlicError::NotInitialized)) {
        return false;
    }
    if !matches!(plic.get_priority(1), Err(PlicError::NotInitialized)) {
        return false;
    }
    if !matches!(plic.enable_interrupt(0, 1), Err(PlicError::NotInitialized)) {
        return false;
    }
    if !matches!(plic.disable_interrupt(0, 1), Err(PlicError::NotInitialized)) {
        return false;
    }
    if !matches!(plic.set_threshold(0, 0), Err(PlicError::NotInitialized)) {
        return false;
    }
    if !matches!(plic.get_threshold(0), Err(PlicError::NotInitialized)) {
        return false;
    }
    if !matches!(plic.claim(0), Err(PlicError::NotInitialized)) {
        return false;
    }
    if !matches!(plic.complete(0, 1), Err(PlicError::NotInitialized)) {
        return false;
    }
    if !matches!(plic.is_pending(1), Err(PlicError::NotInitialized)) {
        return false;
    }
    true
}

/// Checks the PLIC batch requests before initialisation and with a bad context.
pub fn test_plic_batch_operations() -> (r: bool)
    ensures
        r,
{
    let plic = Plic::new();
    let ids: [usize; 3] = [1, 2, 3];
    if !matches!(plic.enable_interrupts_batch(0, &ids), Err(PlicError::NotInitialized)) {
        return false;
    }
    if !matches!(plic.disable_interrupts_batch(0, &ids), Err(PlicError::NotInitialized)) {
        return false;
    }
    if !matches!(plic.enable_interrupts_batch(8, &ids), Err(PlicError::InvalidContextId)) {
        return false;
    }
    if !matches!(plic.disable_interrupts_batch(8, &ids), Err(PlicError::InvalidContextId)) {
        return false;
    }
    true
}

/// Runs every self check; true when all pass.
pub fn run_all_tests() -> (r: bool)
    ensures
        r,
{
    let mut all_passed = true;
    if !test_memory_range() {
        all_passed = false;
    }
    if !test_basic_constants() {
        all_passed = false;
    }
    if !test_dtb_parser_basic() {
        all_passed = false;
    }
    if !test_dtb_parser_info() {
        all_passed = false;
    }
    if !test_plic_basic_functionality() {
        all_passed = false;
    }
    if !test_plic_error_handling() {
        all_passed = false;
    }
    if !test_plic_batch_operations() {
        all_passed = false;
    }
    all_passed
}

} // verus!
