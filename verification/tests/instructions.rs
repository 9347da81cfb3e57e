use stackvm::fault::Fault;
use stackvm::instructions;
use stackvm::machine::VM;
use stackvm::opcode;
use stackvm::signal::FloatOp;
use stackvm::signal::Signal;
use stackvm::word::Width;

const NEXT: Result<Signal, Fault> = Ok(Signal::Next);

fn machine_with(words: &[u64]) -> VM {
    let mut vm = VM::new(0, 0);
    for w in words {
        vm.push(*w);
    }
    vm
}

fn stack_of(vm: &VM) -> Vec<u64> {
    let n = vm.depth();
    (0..n).rev().map(|below| vm.peek(below).unwrap()).collect()
}

fn underflow(tag: u8) -> Result<Signal, Fault> {
    Err(Fault::StackUnderflow { opcode: tag })
}

#[test]
fn halt_signals_halt_and_changes_nothing() {
    let mut vm = machine_with(&[1, 2]);
    vm.set_global(3, 9).unwrap();
    assert_eq!(instructions::halt(&mut vm), Ok(Signal::Halt));
    assert_eq!(stack_of(&vm), vec![1, 2]);
    assert_eq!(vm.global(3), Ok(9));
    assert_eq!(vm.ip(), 0);
}

#[test]
fn bitwise_operations() {
    let mut vm = machine_with(&[0b1100, 0b1010]);
    assert_eq!(instructions::and(&mut vm), NEXT);
    assert_eq!(stack_of(&vm), vec![0b1000]);
    let mut vm = machine_with(&[0b1100, 0b1010]);
    assert_eq!(instructions::or(&mut vm), NEXT);
    assert_eq!(stack_of(&vm), vec![0b1110]);
    let mut vm = machine_with(&[7, 0b1100, 0b1010]);
    assert_eq!(instructions::xor(&mut vm), NEXT);
    assert_eq!(stack_of(&vm), vec![7, 0b0110]);
}

#[test]
fn shifts_use_the_low_six_bits_of_the_amount() {
    let mut vm = machine_with(&[1, 63]);
    assert_eq!(instructions::lshift(&mut vm), NEXT);
    assert_eq!(stack_of(&vm), vec![1 << 63]);
    let mut vm = machine_with(&[3, 64]);
    assert_eq!(instructions::lshift(&mut vm), NEXT);
    assert_eq!(stack_of(&vm), vec![3]);
    let mut vm = machine_with(&[3, 65]);
    assert_eq!(instructions::lshift(&mut vm), NEXT);
    assert_eq!(stack_of(&vm), vec![6]);
    let mut vm = machine_with(&[u64::MAX, 60]);
    assert_eq!(instructions::rshift(&mut vm), NEXT);
    assert_eq!(stack_of(&vm), vec![15]);
    let mut vm = machine_with(&[u64::MAX, 1 << 32]);
    assert_eq!(instructions::rshift(&mut vm), NEXT);
    assert_eq!(stack_of(&vm), vec![u64::MAX]);
    let mut vm = machine_with(&[0x8000_0000_0000_0001, 1]);
    assert_eq!(instructions::lshift(&mut vm), NEXT);
    assert_eq!(stack_of(&vm), vec![2]);
}

#[test]
fn integer_arithmetic_wraps() {
    let mut vm = machine_with(&[u64::MAX, 2]);
    assert_eq!(instructions::add(&mut vm), NEXT);
    assert_eq!(stack_of(&vm), vec![1]);
    let mut vm = machine_with(&[20, 22]);
    assert_eq!(instructions::add(&mut vm), NEXT);
    assert_eq!(stack_of(&vm), vec![42]);
    let mut vm = machine_with(&[5, 3]);
    assert_eq!(instructions::sub(&mut vm), NEXT);
    assert_eq!(stack_of(&vm), vec![u64::MAX - 1]);
    let mut vm = machine_with(&[3, 5]);
    assert_eq!(instructions::sub(&mut vm), NEXT);
    assert_eq!(stack_of(&vm), vec![2]);
    let mut vm = machine_with(&[1 << 63, 4]);
    assert_eq!(instructions::mul(&mut vm), NEXT);
    assert_eq!(stack_of(&vm), vec![0]);
    let mut vm = machine_with(&[0x1_0000_0001, 0x1_0000_0001]);
    assert_eq!(instructions::mul(&mut vm), NEXT);
    assert_eq!(stack_of(&vm), vec![0x2_0000_0001]);
    let mut vm = machine_with(&[6, 7]);
    assert_eq!(instructions::mul(&mut vm), NEXT);
    assert_eq!(stack_of(&vm), vec![42]);
}

#[test]
fn div_is_unsigned_and_rounds_down() {
    let mut vm = machine_with(&[4, 23]);
    assert_eq!(instructions::div(&mut vm), NEXT);
    assert_eq!(stack_of(&vm), vec![5]);
    let mut vm = machine_with(&[23, 4]);
    assert_eq!(instructions::div(&mut vm), NEXT);
    assert_eq!(stack_of(&vm), vec![0]);
    let mut vm = machine_with(&[2, u64::MAX]);
    assert_eq!(instructions::div(&mut vm), NEXT);
    assert_eq!(stack_of(&vm), vec![u64::MAX / 2]);
}

#[test]
fn div_by_zero_leaves_the_operands() {
    let mut vm = machine_with(&[9, 0, 23]);
    assert_eq!(instructions::div(&mut vm), Err(Fault::DivisionByZero));
    assert_eq!(stack_of(&vm), vec![9, 0, 23]);
    // A zero dividend is no fault.
    let mut vm = machine_with(&[23, 0]);
    assert_eq!(instructions::div(&mut vm), NEXT);
    assert_eq!(stack_of(&vm), vec![0]);
}

#[test]
fn two_operand_instructions_need_two_words() {
    let handlers: [(u8, fn(&mut VM) -> Result<Signal, Fault>); 22] = [
        (opcode::OFF, instructions::off),
        (opcode::AND, instructions::and),
        (opcode::OR, instructions::or),
        (opcode::XOR, instructions::xor),
        (opcode::LSHIFT, instructions::lshift),
        (opcode::RSHIFT, instructions::rshift),
        (opcode::ADD, instructions::add),
        (opcode::SUB, instructions::sub),
        (opcode::MUL, instructions::mul),
        (opcode::DIV, instructions::div),
        (opcode::ADDF, instructions::addf),
        (opcode::SUBF, instructions::subf),
        (opcode::MULF, instructions::mulf),
        (opcode::DIVF, instructions::divf),
        (opcode::ADDD, instructions::addd),
        (opcode::SUBD, instructions::subd),
        (opcode::MULD, instructions::muld),
        (opcode::DIVD, instructions::divd),
        (opcode::EQ, instructions::eq),
        (opcode::NEQ, instructions::neq),
        (opcode::GR, instructions::gr),
        (opcode::SM, instructions::sm),
    ];
    for (tag, handler) in handlers {
        let mut vm = machine_with(&[]);
        assert_eq!(handler(&mut vm), underflow(tag));
        let mut vm = machine_with(&[5]);
        assert_eq!(handler(&mut vm), underflow(tag));
        assert_eq!(stack_of(&vm), vec![5]);
        let mut vm = machine_with(&[1, 1]);
        assert!(handler(&mut vm).is_ok());
    }
}

#[test]
fn one_operand_instructions_need_one_word() {
    let handlers: [(u8, fn(&mut VM) -> Result<Signal, Fault>); 13] = [
        (opcode::PUX, instructions::pux),
        (opcode::LOAD1, instructions::load1),
        (opcode::LOAD2, instructions::load2),
        (opcode::LOAD4, instructions::load4),
        (opcode::LOAD8, instructions::load8),
        (opcode::JMP, instructions::jmp),
        (opcode::JMPIF, instructions::jmpif),
        (opcode::JMPIFN, instructions::jmpifn),
        (opcode::CALLDY, instructions::calldy),
        (opcode::FUNDY, instructions::fundy),
        (opcode::POP1, instructions::pop1),
        (opcode::POP8, instructions::pop8),
        (opcode::POP, instructions::pop),
    ];
    for (tag, handler) in handlers {
        let mut vm = machine_with(&[]);
        assert_eq!(handler(&mut vm), underflow(tag));
        assert_eq!(vm.depth(), 0);
        assert_eq!(vm.ip(), 0);
    }
    let code = [0u8; 16];
    let with_code: [(u8, fn(&mut VM, &[u8]) -> Result<Signal, Fault>); 7] = [
        (opcode::SET, instructions::set),
        (opcode::SETX, instructions::setx),
        (opcode::SET1, instructions::set1),
        (opcode::SET2, instructions::set2),
        (opcode::SET4, instructions::set4),
        (opcode::SET8, instructions::set8),
        (opcode::POPX, instructions::popx),
    ];
    for (tag, handler) in with_code {
        let mut vm = machine_with(&[]);
        assert_eq!(handler(&mut vm, &code), underflow(tag));
        assert_eq!(vm.ip(), 0);
    }
    let mut vm = machine_with(&[1]);
    assert_eq!(instructions::setx(&mut vm, &code), underflow(opcode::SETX));
    assert_eq!(stack_of(&vm), vec![1]);
}

#[test]
fn float_instructions_pop_and_ask_the_host() {
    let mut vm = machine_with(&[9, 0x1_0000_0002, 0x3_0000_0004]);
    assert_eq!(
        instructions::addd(&mut vm),
        Ok(Signal::Float { op: FloatOp::AddDouble, left: 0x3_0000_0004, right: 0x1_0000_0002 })
    );
    assert_eq!(stack_of(&vm), vec![9]);
    let mut vm = machine_with(&[9, 0x1_0000_0002, 0x3_0000_0004]);
    assert_eq!(
        instructions::subf(&mut vm),
        Ok(Signal::Float { op: FloatOp::SubSingle, left: 4, right: 2 })
    );
    assert_eq!(stack_of(&vm), vec![9]);
    let cases: [(fn(&mut VM) -> Result<Signal, Fault>, FloatOp); 8] = [
        (instructions::addf, FloatOp::AddSingle),
        (instructions::subf, FloatOp::SubSingle),
        (instructions::mulf, FloatOp::MulSingle),
        (instructions::divf, FloatOp::DivSingle),
        (instructions::addd, FloatOp::AddDouble),
        (instructions::subd, FloatOp::SubDouble),
        (instructions::muld, FloatOp::MulDouble),
        (instructions::divd, FloatOp::DivDouble),
    ];
    for (handler, op) in cases {
        let mut vm = machine_with(&[1, 2]);
        assert_eq!(handler(&mut vm), Ok(Signal::Float { op, left: 2, right: 1 }));
        assert_eq!(vm.depth(), 0);
    }
}

#[test]
fn deliver_pushes_the_pattern_of_the_result() {
    let mut vm = machine_with(&[1]);
    instructions::deliver(&mut vm, FloatOp::MulDouble, 0xffff_ffff_0000_0001);
    instructions::deliver(&mut vm, FloatOp::MulSingle, 0xffff_ffff_0000_0001);
    assert_eq!(stack_of(&vm), vec![1, 0xffff_ffff_0000_0001, 1]);
    assert!(FloatOp::DivSingle.single());
    assert!(!FloatOp::DivDouble.single());
    assert_eq!(FloatOp::AddSingle.crop(u64::MAX), 0xffff_ffff);
    assert_eq!(FloatOp::AddDouble.crop(u64::MAX), u64::MAX);
}

#[test]
fn comparisons_set_the_flag() {
    let cases: [(fn(&mut VM) -> Result<Signal, Fault>, [bool; 3]); 4] = [
        // first popped is: smaller, equal, greater
        (instructions::eq, [false, true, false]),
        (instructions::neq, [true, false, true]),
        (instructions::gr, [false, false, true]),
        (instructions::sm, [true, false, false]),
    ];
    for (handler, expected) in cases {
        for (i, (second, first)) in [(5u64, 3u64), (4, 4), (3, 5)].into_iter().enumerate() {
            let mut vm = machine_with(&[8, second, first]);
            vm.set_flag(!expected[i]);
            assert_eq!(handler(&mut vm), NEXT);
            assert_eq!(vm.flag(), expected[i]);
            assert_eq!(stack_of(&vm), vec![8]);
        }
    }
}

#[test]
fn comparison_is_unsigned() {
    let mut vm = machine_with(&[1, u64::MAX]);
    assert_eq!(instructions::gr(&mut vm), NEXT);
    assert!(vm.flag());
}

#[test]
fn gr_with_five_then_three_pushed_compares_three_with_five() {
    let mut vm = machine_with(&[5, 3]);
    assert_eq!(instructions::gr(&mut vm), NEXT);
    assert!(!vm.flag());
    let mut vm = machine_with(&[5, 3]);
    assert_eq!(instructions::sm(&mut vm), NEXT);
    assert!(vm.flag());
}

#[test]
fn gr_with_five_popped_first_and_three_second_sets_the_flag() {
    let mut vm = machine_with(&[3, 5]);
    assert_eq!(instructions::gr(&mut vm), NEXT);
    assert!(vm.flag());
    let mut vm = machine_with(&[3, 5]);
    assert_eq!(instructions::sm(&mut vm), NEXT);
    assert!(!vm.flag());
}

#[test]
fn not_inverts_the_flag() {
    let mut vm = machine_with(&[4]);
    assert!(!vm.flag());
    assert_eq!(instructions::not(&mut vm), NEXT);
    assert!(vm.flag());
    assert_eq!(instructions::not(&mut vm), NEXT);
    assert!(!vm.flag());
    assert_eq!(stack_of(&vm), vec![4]);
}

#[test]
fn cp_copies_the_top_and_ignores_an_empty_stack() {
    let mut vm = machine_with(&[4, 6]);
    assert_eq!(instructions::cp(&mut vm), NEXT);
    assert_eq!(stack_of(&vm), vec![4, 6, 6]);
    let mut vm = machine_with(&[]);
    assert_eq!(instructions::cp(&mut vm), NEXT);
    assert_eq!(vm.depth(), 0);
}

#[test]
fn pop_drops_the_top_and_frees_nothing() {
    let mut vm = machine_with(&[]);
    let address = vm.allocate(4).unwrap();
    vm.push(address);
    assert_eq!(instructions::pop(&mut vm), NEXT);
    assert_eq!(vm.depth(), 0);
    assert_eq!(vm.outstanding(), 1);
    assert_eq!(vm.read_typed(address, 0, Width::Four), Ok(0));
}

#[test]
fn off_moves_the_address_below_the_count() {
    let mut vm = machine_with(&[1, 1000, 24]);
    assert_eq!(instructions::off(&mut vm), NEXT);
    assert_eq!(stack_of(&vm), vec![1, 1024]);
    let mut vm = machine_with(&[1000, (-8i64) as u64]);
    assert_eq!(instructions::off(&mut vm), NEXT);
    assert_eq!(stack_of(&vm), vec![992]);
    let mut vm = machine_with(&[3, (-8i64) as u64]);
    assert_eq!(instructions::off(&mut vm), NEXT);
    assert_eq!(stack_of(&vm), vec![(-5i64) as u64]);
}

#[test]
fn off_reaches_into_a_block() {
    let mut vm = machine_with(&[]);
    let address = vm.allocate(8).unwrap();
    vm.write_typed(address, 0, Width::Eight, 0x0102_0304_0506_0708).unwrap();
    vm.push(address);
    vm.push(6);
    assert_eq!(instructions::off(&mut vm), NEXT);
    assert_eq!(instructions::load2(&mut vm), NEXT);
    assert_eq!(stack_of(&vm), vec![0x0708]);
    vm.push(address);
    vm.push(7);
    assert_eq!(instructions::off(&mut vm), NEXT);
    assert_eq!(
        instructions::load2(&mut vm),
        Err(Fault::InvalidAddress { address: address + 7 })
    );
    assert_eq!(stack_of(&vm), vec![0x0708, address + 7]);
}

#[test]
fn constant_pushes_make_blocks_of_their_width() {
    let code = [0x11u8, 0x22, 0x33, 0x44, 0x55, 0x66, 0x77, 0x88, 0x99];
    let cases: [(fn(&mut VM, &[u8]) -> Result<Signal, Fault>, u64, Width, u64); 4] = [
        (instructions::pu1, 1, Width::One, 0x22),
        (instructions::pu2, 2, Width::Two, 0x2233),
        (instructions::pu4, 4, Width::Four, 0x2233_4455),
        (instructions::pu8, 8, Width::Eight, 0x2233_4455_6677_8899),
    ];
    for (handler, size, width, value) in cases {
        let mut vm = VM::new(1, 0);
        assert_eq!(handler(&mut vm, &code), NEXT);
        assert_eq!(vm.ip(), 1 + size);
        assert_eq!(vm.depth(), 1);
        assert_eq!(vm.outstanding(), 1);
        let address = vm.peek(0).unwrap();
        assert_eq!(vm.read_typed(address, 0, width), Ok(value));
        // The block has exactly the width of the constant.
        assert_eq!(vm.read_typed(address, size - 1, Width::One), Ok(value & 0xff));
        assert_eq!(
            vm.read_typed(address, size, Width::One),
            Err(Fault::InvalidAddress { address: address + size })
        );
        assert_eq!(vm.deallocate(address, size), Ok(()));
    }
}

#[test]
fn constant_push_without_its_operand_changes_nothing() {
    let code = [opcode::PU4, 1, 2, 3];
    let mut vm = VM::new(1, 0);
    assert_eq!(
        instructions::pu4(&mut vm, &code),
        Err(Fault::MissingOperand { position: 1 })
    );
    assert_eq!(vm.ip(), 1);
    assert_eq!(vm.depth(), 0);
    assert_eq!(vm.outstanding(), 0);
    let mut vm = VM::new(900, 0);
    assert_eq!(
        instructions::pu1(&mut vm, &code),
        Err(Fault::MissingOperand { position: 900 })
    );
    let mut vm = VM::new(u64::MAX, 0);
    assert_eq!(
        instructions::pu8(&mut vm, &code),
        Err(Fault::MissingOperand { position: u64::MAX })
    );
}

#[test]
fn immediate_reads_most_significant_byte_first() {
    let code = [9u8, 0x01, 0x02, 0x03, 0x04];
    let vm = VM::new(1, 0);
    assert_eq!(instructions::immediate(&vm, &code, Width::One), Ok(1));
    assert_eq!(instructions::immediate(&vm, &code, Width::Two), Ok(0x0102));
    assert_eq!(instructions::immediate(&vm, &code, Width::Four), Ok(0x0102_0304));
    assert_eq!(
        instructions::immediate(&vm, &code, Width::Eight),
        Err(Fault::MissingOperand { position: 1 })
    );
    let vm = VM::new(5, 0);
    assert_eq!(
        instructions::immediate(&vm, &code, Width::One),
        Err(Fault::MissingOperand { position: 5 })
    );
}

#[test]
fn take_one_and_take_two_pop_in_order() {
    let mut vm = machine_with(&[1, 2, 3]);
    assert_eq!(instructions::take_two(&mut vm, 77), Ok((3, 2)));
    assert_eq!(instructions::take_two(&mut vm, 77), Err(Fault::StackUnderflow { opcode: 77 }));
    assert_eq!(stack_of(&vm), vec![1]);
    assert_eq!(instructions::take_one(&mut vm, 78), Ok(1));
    assert_eq!(instructions::take_one(&mut vm, 78), Err(Fault::StackUnderflow { opcode: 78 }));
}

#[test]
fn pux_allocates_zeroed_blocks() {
    let mut vm = machine_with(&[7, 3]);
    assert_eq!(instructions::pux(&mut vm), NEXT);
    assert_eq!(vm.depth(), 2);
    let address = vm.peek(0).unwrap();
    assert_eq!(vm.peek(1), Some(7));
    assert_eq!(vm.read_typed(address, 0, Width::Two), Ok(0));
    assert_eq!(vm.read_typed(address, 2, Width::One), Ok(0));
    assert_eq!(
        vm.read_typed(address, 3, Width::One),
        Err(Fault::InvalidAddress { address: address + 3 })
    );
    // A block of no bytes is a block.
    vm.push(0);
    assert_eq!(instructions::pux(&mut vm), NEXT);
    assert_eq!(vm.outstanding(), 2);
    let empty = vm.peek(0).unwrap();
    assert_ne!(empty, address);
    assert_eq!(vm.deallocate(empty, 0), Ok(()));
}

#[test]
fn pux_refuses_blocks_over_the_limit() {
    let mut vm = machine_with(&[1 << 32]);
    assert_eq!(
        instructions::pux(&mut vm),
        Err(Fault::AllocationRefused { size: 1 << 32 })
    );
    assert_eq!(stack_of(&vm), vec![1 << 32]);
    assert_eq!(vm.outstanding(), 0);
}

#[test]
fn pux_then_sized_free_leaves_no_block() {
    for size in [0u64, 1, 2, 4, 8, 1000] {
        let mut code = vec![opcode::POPX];
        code.extend_from_slice(&size.to_be_bytes());
        let mut vm = VM::new(1, 0);
        vm.push(size);
        assert_eq!(instructions::pux(&mut vm), NEXT);
        assert_eq!(vm.outstanding(), 1);
        assert_eq!(instructions::popx(&mut vm, &code), NEXT);
        assert_eq!(vm.outstanding(), 0);
        assert_eq!(vm.depth(), 0);
        assert_eq!(vm.ip(), 9);
    }
}

#[test]
fn sized_frees_check_the_size() {
    let cases: [(fn(&mut VM) -> Result<Signal, Fault>, u64); 4] = [
        (instructions::pop1, 1),
        (instructions::pop2, 2),
        (instructions::pop4, 4),
        (instructions::pop8, 8),
    ];
    for (handler, size) in cases {
        let mut vm = machine_with(&[]);
        let good = vm.allocate(size).unwrap();
        let bad = vm.allocate(size + 1).unwrap();
        vm.push(good);
        vm.push(bad);
        assert_eq!(handler(&mut vm), Err(Fault::AllocationSizeMismatch));
        assert_eq!(vm.depth(), 2);
        assert_eq!(vm.outstanding(), 2);
        assert_eq!(instructions::pop(&mut vm), NEXT);
        assert_eq!(handler(&mut vm), NEXT);
        assert_eq!(vm.depth(), 0);
        assert_eq!(vm.outstanding(), 1);
        // The block is gone: a second free finds nothing.
        vm.push(good);
        assert_eq!(handler(&mut vm), Err(Fault::InvalidAddress { address: good }));
        assert_eq!(stack_of(&vm), vec![good]);
    }
}

#[test]
fn sized_free_wants_the_start_of_a_block() {
    let mut vm = machine_with(&[]);
    let address = vm.allocate(4).unwrap();
    vm.push(address + 1);
    assert_eq!(
        instructions::pop4(&mut vm),
        Err(Fault::InvalidAddress { address: address + 1 })
    );
    assert_eq!(instructions::free(&mut vm, 99, 3), Err(Fault::InvalidAddress { address: address + 1 }));
    assert_eq!(vm.outstanding(), 1);
}

#[test]
fn popx_reads_its_size_behind_the_opcode() {
    let mut code = vec![opcode::POPX];
    code.extend_from_slice(&300u64.to_be_bytes());
    let mut vm = VM::new(1, 0);
    let address = vm.allocate(300).unwrap();
    vm.push(address);
    assert_eq!(instructions::popx(&mut vm, &code[..8]), Err(Fault::MissingOperand { position: 1 }));
    assert_eq!(vm.outstanding(), 1);
    assert_eq!(instructions::popx(&mut vm, &code), NEXT);
    assert_eq!(vm.outstanding(), 0);
    assert_eq!(vm.ip(), 9);
    let mut vm = VM::new(1, 0);
    let address = vm.allocate(301).unwrap();
    vm.push(address);
    assert_eq!(instructions::popx(&mut vm, &code), Err(Fault::AllocationSizeMismatch));
    assert_eq!(vm.ip(), 1);
    assert_eq!(stack_of(&vm), vec![address]);
}

#[test]
fn set_and_get_move_words_between_stack_and_globals() {
    let code = [opcode::SET, 255, opcode::GET, 255, opcode::GET, 0];
    let mut vm = VM::new(1, 0);
    vm.push(5);
    vm.push(77);
    assert_eq!(instructions::set(&mut vm, &code), NEXT);
    assert_eq!(vm.ip(), 2);
    assert_eq!(stack_of(&vm), vec![5]);
    assert_eq!(vm.global(255), Ok(77));
    vm.jump(3);
    assert_eq!(instructions::get(&mut vm, &code), NEXT);
    assert_eq!(vm.ip(), 4);
    vm.jump(5);
    assert_eq!(instructions::get(&mut vm, &code), NEXT);
    assert_eq!(stack_of(&vm), vec![5, 77, 0]);
}

#[test]
fn set_and_get_need_their_operand() {
    let code = [opcode::SET];
    let mut vm = VM::new(1, 0);
    vm.push(5);
    assert_eq!(instructions::set(&mut vm, &code), Err(Fault::MissingOperand { position: 1 }));
    assert_eq!(stack_of(&vm), vec![5]);
    assert_eq!(instructions::get(&mut vm, &code), Err(Fault::MissingOperand { position: 1 }));
    assert_eq!(stack_of(&vm), vec![5]);
    // With stack and operand both missing, the stack is missed first.
    let mut vm = VM::new(1, 0);
    assert_eq!(instructions::set(&mut vm, &code), underflow(opcode::SET));
}

#[test]
fn typed_loads_do_not_extend_the_sign() {
    let mut vm = machine_with(&[]);
    let address = vm.allocate(8).unwrap();
    vm.write_typed(address, 0, Width::Eight, 0xf1f2_f3f4_f5f6_f7f8).unwrap();
    let cases: [(fn(&mut VM) -> Result<Signal, Fault>, u64); 4] = [
        (instructions::load1, 0xf1),
        (instructions::load2, 0xf1f2),
        (instructions::load4, 0xf1f2_f3f4),
        (instructions::load8, 0xf1f2_f3f4_f5f6_f7f8),
    ];
    for (handler, value) in cases {
        vm.push(address);
        assert_eq!(handler(&mut vm), NEXT);
        assert_eq!(vm.pop(), Some(value));
    }
    assert_eq!(vm.outstanding(), 1);
}

#[test]
fn typed_load_from_a_stray_address_is_a_fault() {
    let mut vm = machine_with(&[12345]);
    assert_eq!(instructions::load1(&mut vm), Err(Fault::InvalidAddress { address: 12345 }));
    assert_eq!(stack_of(&vm), vec![12345]);
    let address = vm.allocate(4).unwrap();
    vm.push(address);
    assert_eq!(instructions::load8(&mut vm), Err(Fault::InvalidAddress { address }));
    assert_eq!(instructions::load(&mut vm, 3, Width::Four), NEXT);
    assert_eq!(stack_of(&vm), vec![12345, 0]);
}

#[test]
fn typed_writes_put_the_operand_into_the_block() {
    let code = [0u8, 0xa1, 0xa2, 0xa3, 0xa4, 0xa5, 0xa6, 0xa7, 0xa8];
    let cases: [(fn(&mut VM, &[u8]) -> Result<Signal, Fault>, u64, u64); 4] = [
        (instructions::set1, 1, 0xa100_0000_0000_0000),
        (instructions::set2, 2, 0xa1a2_0000_0000_0000),
        (instructions::set4, 4, 0xa1a2_a3a4_0000_0000),
        (instructions::set8, 8, 0xa1a2_a3a4_a5a6_a7a8),
    ];
    for (handler, size, expected) in cases {
        let mut vm = VM::new(1, 0);
        let address = vm.allocate(8).unwrap();
        vm.push(address);
        assert_eq!(handler(&mut vm, &code), NEXT);
        assert_eq!(vm.ip(), 1 + size);
        assert_eq!(stack_of(&vm), vec![address]);
        assert_eq!(vm.read_typed(address, 0, Width::Eight), Ok(expected));
    }
}

#[test]
fn typed_write_must_fit_the_block() {
    let code = [0u8, 0xa1, 0xa2, 0xa3, 0xa4];
    let mut vm = VM::new(1, 0);
    let address = vm.allocate(3).unwrap();
    vm.push(address);
    assert_eq!(instructions::set4(&mut vm, &code), Err(Fault::InvalidAddress { address }));
    assert_eq!(vm.ip(), 1);
    assert_eq!(vm.read_typed(address, 0, Width::Two), Ok(0));
    assert_eq!(instructions::set2(&mut vm, &code), NEXT);
    assert_eq!(vm.read_typed(address, 0, Width::Two), Ok(0xa1a2));
    assert_eq!(instructions::store(&mut vm, &code, 9, Width::Eight), Err(Fault::MissingOperand { position: 3 }));
}

#[test]
fn setx_writes_one_byte_at_the_offset_popped() {
    let code = [opcode::SETX, 0xee];
    let mut vm = VM::new(1, 0);
    let address = vm.allocate(4).unwrap();
    vm.push(address);
    vm.push(2);
    assert_eq!(instructions::setx(&mut vm, &code), NEXT);
    assert_eq!(vm.ip(), 2);
    assert_eq!(stack_of(&vm), vec![address]);
    assert_eq!(vm.read_typed(address, 0, Width::Four), Ok(0x0000_ee00));
    vm.jump(1);
    vm.push(4);
    assert_eq!(
        instructions::setx(&mut vm, &code),
        Err(Fault::InvalidAddress { address: address + 4 })
    );
    assert_eq!(stack_of(&vm), vec![address, 4]);
    assert_eq!(vm.ip(), 1);
}

#[test]
fn jumps_pop_their_target() {
    let mut vm = machine_with(&[1, 500]);
    assert_eq!(instructions::jmp(&mut vm), NEXT);
    assert_eq!(vm.ip(), 500);
    assert_eq!(stack_of(&vm), vec![1]);

    let mut vm = machine_with(&[1, 500]);
    assert_eq!(instructions::jmpif(&mut vm), NEXT);
    assert_eq!(vm.ip(), 0);
    assert_eq!(stack_of(&vm), vec![1]);

    let mut vm = machine_with(&[1, 500]);
    assert_eq!(instructions::jmpifn(&mut vm), NEXT);
    assert_eq!(vm.ip(), 500);
    assert_eq!(stack_of(&vm), vec![1]);

    let mut vm = machine_with(&[1, 500]);
    vm.set_flag(true);
    assert_eq!(instructions::jmpif(&mut vm), NEXT);
    assert_eq!(vm.ip(), 500);
    assert!(vm.flag());

    let mut vm = machine_with(&[1, 500]);
    vm.set_flag(true);
    assert_eq!(instructions::jmpifn(&mut vm), NEXT);
    assert_eq!(vm.ip(), 0);
    assert_eq!(stack_of(&vm), vec![1]);
    assert_eq!(instructions::jump(&mut vm, 1, true), NEXT);
    assert_eq!(vm.ip(), 1);
    assert_eq!(instructions::jump(&mut vm, 1, true), Err(Fault::StackUnderflow { opcode: 1 }));
}

#[test]
fn call_saves_the_position_behind_its_operand() {
    let mut code = vec![opcode::NOT, opcode::CALL];
    code.extend_from_slice(&0x0102_0304u64.to_be_bytes());
    let mut vm = VM::new(2, 0);
    assert_eq!(instructions::call(&mut vm, &code), NEXT);
    assert_eq!(vm.ip(), 0x0102_0304);
    assert_eq!(vm.call_depth(), 1);
    assert_eq!(instructions::ret(&mut vm), NEXT);
    assert_eq!(vm.ip(), 10);
    assert_eq!(vm.call_depth(), 0);
}

#[test]
fn call_without_its_operand_saves_nothing() {
    let code = [opcode::CALL, 0, 0, 0];
    let mut vm = VM::new(1, 0);
    assert_eq!(instructions::call(&mut vm, &code), Err(Fault::MissingOperand { position: 1 }));
    assert_eq!(vm.call_depth(), 0);
    assert_eq!(vm.ip(), 1);
}

#[test]
fn calldy_saves_the_position_behind_the_opcode() {
    let mut vm = VM::new(31, 0);
    vm.push(8);
    vm.push(600);
    assert_eq!(instructions::calldy(&mut vm), NEXT);
    assert_eq!(vm.ip(), 600);
    assert_eq!(stack_of(&vm), vec![8]);
    assert_eq!(vm.pop_return(), Some(31));
}

#[test]
fn ret_on_an_empty_call_stack_changes_nothing() {
    let mut vm = VM::new(17, 0);
    vm.push(3);
    vm.set_flag(true);
    assert_eq!(instructions::ret(&mut vm), Err(Fault::CallStackUnderflow));
    assert_eq!(vm.ip(), 17);
    assert_eq!(stack_of(&vm), vec![3]);
    assert!(vm.flag());
    assert_eq!(vm.call_depth(), 0);
}

#[test]
fn fun_and_fundy_ask_for_registered_externs_only() {
    let mut code = vec![opcode::FUN];
    code.extend_from_slice(&4u64.to_be_bytes());
    let mut vm = VM::new(1, 5);
    assert_eq!(instructions::fun(&mut vm, &code), Ok(Signal::Extern { index: 4 }));
    assert_eq!(vm.ip(), 9);
    let mut vm = VM::new(1, 4);
    assert_eq!(
        instructions::fun(&mut vm, &code),
        Err(Fault::ExternIndexOutOfRange { index: 4 })
    );
    assert_eq!(vm.ip(), 1);
    assert_eq!(
        instructions::fun(&mut vm, &code[..5]),
        Err(Fault::MissingOperand { position: 1 })
    );

    let mut vm = VM::new(1, 5);
    vm.push(9);
    vm.push(4);
    assert_eq!(instructions::fundy(&mut vm), Ok(Signal::Extern { index: 4 }));
    assert_eq!(stack_of(&vm), vec![9]);
    assert_eq!(
        instructions::fundy(&mut vm),
        Err(Fault::ExternIndexOutOfRange { index: 9 })
    );
    assert_eq!(stack_of(&vm), vec![9]);
    assert_eq!(vm.ip(), 1);
}

#[test]
fn push_const_takes_the_next_slot() {
    let code = [0x5au8; 8];
    let mut vm = VM::new(0, 0);
    assert_eq!(instructions::push_const(&mut vm, &code, Width::Two), NEXT);
    assert_eq!(instructions::push_const(&mut vm, &code, Width::Four), NEXT);
    assert_eq!(stack_of(&vm), vec![0, 1 << 32]);
    assert_eq!(vm.ip(), 6);
    assert_eq!(vm.read_typed(1 << 32, 0, Width::Four), Ok(0x5a5a_5a5a));
}

#[test]
fn float_with_its_own_tag_reports_that_tag() {
    let mut vm = machine_with(&[1]);
    assert_eq!(instructions::float(&mut vm, 200, FloatOp::AddDouble), underflow(200));
}
