use kinematic::runtime::RuntimeBuilder;


#[test]
fn brand_new_runtime_has_default_values() {
    let vm = RuntimeBuilder::new()
        .build();
    
    assert_eq!(vm.flag_zero, false);
    assert_eq!(vm.flag_carry, false);
    assert_eq!(vm.running, false);
}

#[test]
fn runtime_fetching_next_instruction_consumes_previous_ones() {
    let program = vec![7, 8, 9];
    let mut vm = RuntimeBuilder::new()
        .with_program(program)
        .unwrap()
        .build();

    let instruction = vm.consume_next_instr().unwrap();
    let expected = 7;
    assert_eq!(expected, instruction);

    let instruction = vm.consume_next_instr().unwrap();
    let expected = 8;
    assert_eq!(expected, instruction);

    let instruction = vm.consume_next_instr().unwrap();
    let expected = 9;
    assert_eq!(expected, instruction);
}

#[test]
fn runtime_load_affects_specific_registers() {
    let expected_d0 = 0b1101;
    let expected_d1 = 0b0110_0100;
    let expected_d2 = 0b0110_0001;
    let expected_d3 = 0b0011_0010_1001_0100;

    /*
     * Writes to d0, d1, d2, d3 at each step
     */
    let program = vec![
        0b00000000_0000000000000000000000000000000000000000001101_0000000001i64, // load $13, d0
        0b00000001_0000000000000000000000000000000000000001100100_0000000001i64, // load $100, d1
        0b00000010_0000000000000000000000000000000000000001100001_0000000001i64, // load $99, d2
        0b00000011_0000000000000000000000000000000011001010010100_0000000001i64, // load $12948, d3
    ];

    let mut vm = RuntimeBuilder::new()
        .with_program(program)
        .unwrap()
        .build();

    let _ = vm.perform_next_instr();
    assert_eq!(expected_d0, vm.registers.data0);
    assert_eq!(0, vm.registers.data1);
    assert_eq!(0, vm.registers.data2);
    assert_eq!(0, vm.registers.data3);
    assert_eq!(1, vm.registers.instr_pointer);

    let _ = vm.perform_next_instr();
    assert_eq!(expected_d0, vm.registers.data0);
    assert_eq!(expected_d1, vm.registers.data1);
    assert_eq!(0, vm.registers.data2);
    assert_eq!(0, vm.registers.data3);
    assert_eq!(2, vm.registers.instr_pointer);

    let _ = vm.perform_next_instr();
    assert_eq!(expected_d0, vm.registers.data0);
    assert_eq!(expected_d1, vm.registers.data1);
    assert_eq!(expected_d2, vm.registers.data2);
    assert_eq!(0, vm.registers.data3);
    assert_eq!(3, vm.registers.instr_pointer);

    let _ = vm.perform_next_instr();
    assert_eq!(expected_d0, vm.registers.data0);
    assert_eq!(expected_d1, vm.registers.data1);
    assert_eq!(expected_d2, vm.registers.data2);
    assert_eq!(expected_d3, vm.registers.data3);
    assert_eq!(4, vm.registers.instr_pointer);
}

#[test]
fn runtime_copy_should_make_src_value_equal_to_dest_value() {
    let program = vec![
        0b00000000_0000000000000000000000000000000000000000010001_0000000001i64,   // load $17, d0
        0b000000000000000000000000001_000000000000000000000000000_0000001100i64,   // copy d0, d1
    ];
    let mut vm = RuntimeBuilder::new()
        .with_program(program)
        .unwrap()
        .build();

    assert_eq!(0, vm.registers.data0);
    assert_eq!(0, vm.registers.data1);

    let _ = vm.perform_next_instr();  // load $17, d0
    assert_eq!(17, vm.registers.data0);
    assert_eq!(0, vm.registers.data1);

    let _ = vm.perform_next_instr();  // copy d0, d1
    assert_eq!(17, vm.registers.data0);
    assert_eq!(17, vm.registers.data1);
}

#[test]
fn runtime_addition_should_preserve_operand_regs_and_update_dest_reg() {
    let expected_result = 5000;

    /*
     * Loads 2000 and 3000 to d0 and d1 respectively, then performs addition with destination d3
     */
    let program = vec![
        0b00000000_0000000000000000000000000000000000011111010000_0000000001i64,
        0b00000001_0000000000000000000000000000000000101110111000_0000000001i64,
        0b000000000000000011_000000000000000001_000000000000000000_0000000010i64
    ];
    let mut vm = RuntimeBuilder::new()
        .with_program(program)
        .unwrap()
        .build();

    let _ = vm.perform_next_instr();
    assert_eq!(0b11111010000, vm.registers.data0);
    assert_eq!(0, vm.registers.data1);
    assert_eq!(0, vm.registers.data3);

    let _ = vm.perform_next_instr();
    assert_eq!(0b11111010000, vm.registers.data0);
    assert_eq!(0b101110111000, vm.registers.data1);
    assert_eq!(0, vm.registers.data3);

    let _ = vm.perform_next_instr();
    assert_eq!(0b11111010000, vm.registers.data0);
    assert_eq!(0b101110111000, vm.registers.data1);
    assert_eq!(expected_result, vm.registers.data3);
}

#[test]
fn runtime_subtraction_should_preserve_operand_regs_and_update_dest_reg() {
    let expected_result = -1000;

    /*
     * Loads 2000 and 3000 to d0 and d1 respectively, then performs subtraction with destination d3
     */
    let program = vec![
        0b00000000_0000000000000000000000000000000000011111010000_0000000001i64,
        0b00000001_0000000000000000000000000000000000101110111000_0000000001i64,
        0b000000000000000011_000000000000000001_000000000000000000_0000000011i64
    ];
    let mut vm = RuntimeBuilder::new()
        .with_program(program)
        .unwrap()
        .build();

    let _ = vm.perform_next_instr();
    assert_eq!(0b11111010000, vm.registers.data0);
    assert_eq!(0, vm.registers.data1);
    assert_eq!(0, vm.registers.data3);

    let _ = vm.perform_next_instr();
    assert_eq!(0b11111010000, vm.registers.data0);
    assert_eq!(0b101110111000, vm.registers.data1);
    assert_eq!(0, vm.registers.data3);

    let _ = vm.perform_next_instr();
    assert_eq!(0b11111010000, vm.registers.data0);
    assert_eq!(0b101110111000, vm.registers.data1);
    assert_eq!(expected_result, vm.registers.data3);
}

#[test]
fn runtime_multiplication_should_preserve_operand_regs_and_update_dest_reg() {
    let expected_result = 6_000_000;

    /*
     * Loads 2000 and 3000 to d0 and d1 respectively, then performs multiplication with destination d3
     */
    let program = vec![
        0b00000000_0000000000000000000000000000000000011111010000_0000000001i64,
        0b00000001_0000000000000000000000000000000000101110111000_0000000001i64,
        0b000000000000000011_000000000000000001_000000000000000000_0000000100i64
    ];

    let mut vm = RuntimeBuilder::new()
        .with_program(program)
        .unwrap()
        .build();

    let _ = vm.perform_next_instr();
    assert_eq!(0b11111010000, vm.registers.data0);
    assert_eq!(0, vm.registers.data1);
    assert_eq!(0, vm.registers.data3);

    let _ = vm.perform_next_instr();
    assert_eq!(0b11111010000, vm.registers.data0);
    assert_eq!(0b101110111000, vm.registers.data1);
    assert_eq!(0, vm.registers.data3);

    let _ = vm.perform_next_instr();
    assert_eq!(0b11111010000, vm.registers.data0);
    assert_eq!(0b101110111000, vm.registers.data1);
    assert_eq!(expected_result, vm.registers.data3);
}

#[test]
fn runtime_division_should_affect_both_quot_dest_and_rem_dest() {
    let expected_quotient = 3;
    let expected_remainder = 619;

    let program = vec![
        0b00000000_0000000000000000000000000000000001000011100001_0000000001i64,    // load $4321, d0
        0b00000001_0000000000000000000000000000000000010011010010_0000000001i64,    // load $1234, d1
        0b000000000000011_0000000000010_0000000000001_0000000000000_0000001011i64,  // div d0 d1 d2 d3
    ];
    let mut vm = RuntimeBuilder::new()
        .with_program(program)
        .unwrap()
        .build();

    let _ = vm.perform_next_instr();  // load $4321, d0
    let _ = vm.perform_next_instr();  // load $1234, d1
    let _ = vm.perform_next_instr();  // div d0 d1 d2 d3

    assert_eq!(expected_quotient, vm.registers.data2);
    assert_eq!(expected_remainder, vm.registers.data3);
}

#[test]
fn runtime_cmp_should_affect_zero_flag() {
    let program = vec![
        0b00000000_0000000000000000000000000000000000011111010000_0000000001i64,    // load $2000, d0
        0b00000001_0000000000000000000000000000000000101110111000_0000000001i64,    // load $3000, d1
        0b00000010_0000000000000000000000000000000000011111010000_0000000001i64,    // load $2000, d2
        0b000000000000000000000000001_000000000000000000000000000_0000000101i64,    // cmp d0, d1
        0b000000000000000000000000010_000000000000000000000000000_0000000101i64,    // cmp d0, d2
        0b000000000000000000000000000_000000000000000000000000001_0000000101i64,    // cmp d1, d0
    ];
    let mut vm = RuntimeBuilder::new()
        .with_program(program)
        .unwrap()
        .build();

    let _ = vm.perform_next_instr();  // load $2000, d0
    let _ = vm.perform_next_instr();  // load $3000, d1
    let _ = vm.perform_next_instr();  // load $2000, d2

    let _ = vm.perform_next_instr();  // cmp d0, d1
    assert!(!vm.flag_zero);

    let _ = vm.perform_next_instr();  // cmp d0, d2
    assert!(vm.flag_zero);

    let _ = vm.perform_next_instr();  // cmp d1, d0
    assert!(!vm.flag_zero);
}

#[test]
fn runtime_jmp_should_affect_ip_reg() {
    let program = vec![
        0b00000000_0000000000000000000000000000000000000000000100_0000000001i64,    // load $4, d0
        0b00000000_0000000000000000000000000000000000000000000011_0000000001i64,    // load $3, d0
        0b00000000_0000000000000000000000000000000000000000000010_0000000001i64,    // load $2, d0
        0b00000001_0000000000000000000000000000000000000000000001_0000000001i64,    // load $1, d1
        0b000000000000000000000000000000000000000000000000000001_0000000110i64,     // jmp d1
    ];
    let mut vm = RuntimeBuilder::new()
        .with_program(program)
        .unwrap()
        .build();

    assert_eq!(0, vm.registers.instr_pointer);
    assert_eq!(0, vm.registers.data0);
    assert_eq!(0, vm.registers.data1);

    let _ = vm.perform_next_instr();  // load $4, d0

    assert_eq!(1, vm.registers.instr_pointer);
    assert_eq!(4, vm.registers.data0);
    assert_eq!(0, vm.registers.data1);

    let _ = vm.perform_next_instr();  // load $3, d0

    assert_eq!(2, vm.registers.instr_pointer);
    assert_eq!(3, vm.registers.data0);
    assert_eq!(0, vm.registers.data1);

    let _ = vm.perform_next_instr();  // load $2, d0

    assert_eq!(3, vm.registers.instr_pointer);
    assert_eq!(2, vm.registers.data0);
    assert_eq!(0, vm.registers.data1);

    let _ = vm.perform_next_instr();  // load $1, d1

    assert_eq!(4, vm.registers.instr_pointer);
    assert_eq!(2, vm.registers.data0);
    assert_eq!(1, vm.registers.data1);

    let _ = vm.perform_next_instr();  // jmp d1

    assert_eq!(1, vm.registers.instr_pointer);
    assert_eq!(2, vm.registers.data0);
    assert_eq!(1, vm.registers.data1);

    let _ = vm.perform_next_instr();  // load $3, d0

    assert_eq!(2, vm.registers.instr_pointer);
    assert_eq!(3, vm.registers.data0);
    assert_eq!(1, vm.registers.data1);
}

#[test]
fn runtime_euclidean_algorithm_gcd_of_230_449() {
    let program = vec![
        0b00000001_0000000000000000000000000000000000000011100110_0000000001i64,    // load $230, d1     ; divisor
        0b00000000_0000000000000000000000000000000000000111000001_0000000001i64,    // load $449, d0     ; dividend
        0b00000010_0000000000000000000000000000000000000000000000_0000000001i64,    // load $0, d2       ; clear remainder location
        0b00000011_0000000000000000000000000000000000000000000000_0000000001i64,    // load $0, d3       ; for zero comparison
        0b000000000000010_0000000000000_0000000000001_0000000000000_0000001011i64,  // div  d0 d1 d0 d2  ; perform division
        0b000000000000000000000000000_000000000000000000000000001_0000001100i64,    // copy d1, d0       ; divisor is the new dividend
        0b000000000000000000000000001_000000000000000000000000010_0000001100i64,    // copy d2, d1       ; remainder is the new divisor
        0b000000000000000000000000011_000000000000000000000000010_0000000101i64,    // cmp  d2, d3       ; check if remainder is zero
        0b00000011_0000000000000000000000000000000000000000000010_0000000001i64,    // load $2, d3       ; load wanted ip value
        0b000000000000000000000000000000000000000000000000000011_0000001000i64,     // jnz d3            ; jump back to step 2 (0-based)
        0b0000000000000000000000000000000000000000000000000000000000000000i64,      // halt              ; stop (result is in d0)
    ];
    let mut vm = RuntimeBuilder::new()
        .with_program(program)
        .unwrap()
        .build();
    vm.run().unwrap();

    assert_eq!(1, vm.registers.data0);
}

#[test]
fn runtime_inc_should_increment_a_reg_by_one() {
    let expected_value = 231;

    let program = vec![
        0b00000000_0000000000000000000000000000000000000011100110_0000000001i64,    // load $230, d0
        0b000000000000000000000000000000000000000000000000000000_0000001101i64,     // inc d0
        0b0000000000000000000000000000000000000000000000000000000000000000i64,      // halt
    ];
    let mut vm = RuntimeBuilder::new()
        .with_program(program)
        .unwrap()
        .build();
    vm.run().unwrap();

    assert_eq!(expected_value, vm.registers.data0);
}

#[test]
fn runtime_dec_should_decrement_a_reg_by_one() {
    let expected_value = 448;

    let program = vec![
        0b00000000_0000000000000000000000000000000000000111000001_0000000001i64,    // load $449, d0
        0b000000000000000000000000000000000000000000000000000000_0000001110i64,     // dec d0
        0b0000000000000000000000000000000000000000000000000000000000000000i64,      // halt
    ];
    let mut vm = RuntimeBuilder::new()
        .with_program(program)
        .unwrap()
        .build();
    vm.run().unwrap();

    assert_eq!(expected_value, vm.registers.data0);
}

#[test]
fn runtime_storing_on_mem_affects_mem() {
    let program = vec![
        0b00000000_0000000000000000000000000000000000000111000001_0000000001i64,    // load $449, d0
        0b000000000000000000000000000_000000000000000000000000000_0000010000i64,    // strm d0, @0
        0b0000000000000000000000000000000000000000000000000000000000000000i64,      // halt
    ];
    let mut vm = RuntimeBuilder::new()
        .with_program(program)
        .unwrap()
        .build();
    vm.run().unwrap();

    assert_eq!(449, vm.memory.read(0).unwrap());
}

#[test]
fn runtime_loading_from_mem_affects_reg() {
    let program = vec![
        0b00000000_0000000000000000000000000000000000000111000001_0000000001i64,    // load $449, d0
        0b000000000000000000000000000_000000000000000000000000000_0000010000i64,    // strm d0, @0
        0b000000000000000000000000001_000000000000000000000000000_0000001111i64,    // ldm @0, d1
        0b000000000000000000000000000000000000000000000000000000_0000000000i64,      // halt
    ];
    let mut vm = RuntimeBuilder::new()
        .with_program(program)
        .unwrap()
        .build();
    vm.run().unwrap();

    assert_eq!(449, vm.registers.data1);
}
