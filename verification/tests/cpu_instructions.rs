use solidboy::cpu::CPU;
use solidboy::registers::Register;

  

  const INITIAL_PC: u16 = 0x0100;
  const INITIAL_SP: u16 = 0xFFFE;
  const INITIAL_ZERO_FLAG: bool = true;
  const INITIAL_SUBTRACT_FLAG: bool = false;
  const INITIAL_HALF_CARRY_FLAG: bool = true;
  const INITIAL_CARRY_FLAG: bool = true;

  fn create_cpu(bytes: Vec<u8>) -> CPU {
    let mut rom = vec![0x00; 0xFFFF + 1];
    for i in 0..bytes.len() {
      rom[INITIAL_PC as usize + i] = bytes[i];
    }

    CPU::new(rom)
  }

  #[test]
  fn test_noop() {
    let mut cpu = create_cpu(vec![0x00]);
    let result = cpu.execute_instruction();

    assert_eq!(result.cycles, 4);
    assert_eq!(cpu.registers.get(Register::PC), INITIAL_PC + 1);
    assert_eq!(cpu.registers.zero(), INITIAL_ZERO_FLAG);
    assert_eq!(cpu.registers.subtract(), INITIAL_SUBTRACT_FLAG);
    assert_eq!(cpu.registers.half_carry(), INITIAL_HALF_CARRY_FLAG);
    assert_eq!(cpu.registers.carry(), INITIAL_CARRY_FLAG);

  }

  #[test]
  fn test_jp_cond_non_zero_taken() {
      let mut cpu = create_cpu(vec![0xC2, 0x34, 0x12]);
      cpu.registers.set_zero(false);

      let result = cpu.execute_instruction();
  
      assert_eq!(result.cycles, 16);
      assert_eq!(cpu.registers.get(Register::PC), 0x1234);
      assert_eq!(cpu.registers.zero(), false);
      assert_eq!(cpu.registers.subtract(), INITIAL_SUBTRACT_FLAG);
      assert_eq!(cpu.registers.half_carry(), INITIAL_HALF_CARRY_FLAG);
      assert_eq!(cpu.registers.carry(), INITIAL_CARRY_FLAG);
  }

  #[test]
  fn test_jp_cond_non_zero_untaken() {
      let mut cpu = create_cpu(vec![0xC2, 0x34, 0x12]);
      cpu.registers.set_zero(true);
      
      let result = cpu.execute_instruction();
  
      assert_eq!(result.cycles, 12);
      assert_eq!(cpu.registers.get(Register::PC), INITIAL_PC + 3);
      assert_eq!(cpu.registers.zero(), true);
      assert_eq!(cpu.registers.subtract(), INITIAL_SUBTRACT_FLAG);
      assert_eq!(cpu.registers.half_carry(), INITIAL_HALF_CARRY_FLAG);
      assert_eq!(cpu.registers.carry(), INITIAL_CARRY_FLAG);
  }

  #[test]
  fn test_jp_cond_zero_taken() {
      let mut cpu = create_cpu(vec![0xCA, 0x34, 0x12]);
      cpu.registers.set_zero(true);

      let result = cpu.execute_instruction();
  
      assert_eq!(result.cycles, 16);
      assert_eq!(cpu.registers.get(Register::PC), 0x1234);
      assert_eq!(cpu.registers.zero(), true);
      assert_eq!(cpu.registers.subtract(), INITIAL_SUBTRACT_FLAG);
      assert_eq!(cpu.registers.half_carry(), INITIAL_HALF_CARRY_FLAG);
      assert_eq!(cpu.registers.carry(), INITIAL_CARRY_FLAG);
  }

  #[test]
  fn test_jp_cond_zero_untaken() {
      let mut cpu = create_cpu(vec![0xCA, 0x34, 0x12]);
      cpu.registers.set_zero(false);
      
      let result = cpu.execute_instruction();
  
      assert_eq!(result.cycles, 12);
      assert_eq!(cpu.registers.get(Register::PC), INITIAL_PC + 3);
      assert_eq!(cpu.registers.zero(), false);
      assert_eq!(cpu.registers.subtract(), INITIAL_SUBTRACT_FLAG);
      assert_eq!(cpu.registers.half_carry(), INITIAL_HALF_CARRY_FLAG);
      assert_eq!(cpu.registers.carry(), INITIAL_CARRY_FLAG);
  }

  #[test]
  fn test_jp_cond_non_carry_taken() {
      let mut cpu = create_cpu(vec![0xD2, 0x34, 0x12]);
      cpu.registers.set_carry(false);

      let result = cpu.execute_instruction();
  
      assert_eq!(result.cycles, 16);
      assert_eq!(cpu.registers.get(Register::PC), 0x1234);
      assert_eq!(cpu.registers.zero(), INITIAL_ZERO_FLAG);
      assert_eq!(cpu.registers.subtract(), INITIAL_SUBTRACT_FLAG);
      assert_eq!(cpu.registers.half_carry(), INITIAL_HALF_CARRY_FLAG);
      assert_eq!(cpu.registers.carry(), false);
  }

  #[test]
  fn test_jp_cond_non_carry_untaken() {
      let mut cpu = create_cpu(vec![0xD2, 0x34, 0x12]);
      cpu.registers.set_carry(true);
      
      let result = cpu.execute_instruction();
  
      assert_eq!(result.cycles, 12);
      assert_eq!(cpu.registers.get(Register::PC), INITIAL_PC + 3);
      assert_eq!(cpu.registers.zero(), INITIAL_ZERO_FLAG);
      assert_eq!(cpu.registers.subtract(), INITIAL_SUBTRACT_FLAG);
      assert_eq!(cpu.registers.half_carry(), INITIAL_HALF_CARRY_FLAG);
      assert_eq!(cpu.registers.carry(), true);
  }

  #[test]
  fn test_jp_cond_carry_taken() {
      let mut cpu = create_cpu(vec![0xDA, 0x34, 0x12]);
      cpu.registers.set_carry(true);

      let result = cpu.execute_instruction();
  
      assert_eq!(result.cycles, 16);
      assert_eq!(cpu.registers.get(Register::PC), 0x1234);
      assert_eq!(cpu.registers.zero(), INITIAL_ZERO_FLAG);
      assert_eq!(cpu.registers.subtract(), INITIAL_SUBTRACT_FLAG);
      assert_eq!(cpu.registers.half_carry(), INITIAL_HALF_CARRY_FLAG);
      assert_eq!(cpu.registers.carry(), true);
  }

  #[test]
  fn test_jp_cond_carry_untaken() {
      let mut cpu = create_cpu(vec![0xDA, 0x34, 0x12]);
      cpu.registers.set_carry(false);
      
      let result = cpu.execute_instruction();
  
      assert_eq!(result.cycles, 12);
      assert_eq!(cpu.registers.get(Register::PC), INITIAL_PC + 3);
      assert_eq!(cpu.registers.zero(), INITIAL_ZERO_FLAG);
      assert_eq!(cpu.registers.subtract(), INITIAL_SUBTRACT_FLAG);
      assert_eq!(cpu.registers.half_carry(), INITIAL_HALF_CARRY_FLAG);
      assert_eq!(cpu.registers.carry(), false);
  }

  #[test]
  fn test_jp_memory() {
      let mut cpu = create_cpu(vec![0xC3, 0x34, 0x12]);
      
      let result = cpu.execute_instruction();
  
      assert_eq!(result.cycles, 16);
      assert_eq!(cpu.registers.get(Register::PC), 0x1234);
      assert_eq!(cpu.registers.zero(), INITIAL_ZERO_FLAG);
      assert_eq!(cpu.registers.subtract(), INITIAL_SUBTRACT_FLAG);
      assert_eq!(cpu.registers.half_carry(), INITIAL_HALF_CARRY_FLAG);
      assert_eq!(cpu.registers.carry(), INITIAL_CARRY_FLAG);
  }

  #[test]
  fn test_jp_register() {
      let mut cpu = create_cpu(vec![0xE9]);
      cpu.registers.set(Register::HL, 0x1234);
      
      let result = cpu.execute_instruction();
  
      assert_eq!(result.cycles, 4);
      assert_eq!(cpu.registers.get(Register::PC), 0x1234);
      assert_eq!(cpu.registers.zero(), INITIAL_ZERO_FLAG);
      assert_eq!(cpu.registers.subtract(), INITIAL_SUBTRACT_FLAG);
      assert_eq!(cpu.registers.half_carry(), INITIAL_HALF_CARRY_FLAG);
      assert_eq!(cpu.registers.carry(), INITIAL_CARRY_FLAG);
  }

  #[test]
  fn test_di() {
      let mut cpu = create_cpu(vec![0xF3]);
      cpu.ime = true;
      
      let result = cpu.execute_instruction();
  
      assert_eq!(result.cycles, 4);
      assert_eq!(cpu.ime, false);
      assert_eq!(cpu.registers.zero(), INITIAL_ZERO_FLAG);
      assert_eq!(cpu.registers.subtract(), INITIAL_SUBTRACT_FLAG);
      assert_eq!(cpu.registers.half_carry(), INITIAL_HALF_CARRY_FLAG);
      assert_eq!(cpu.registers.carry(), INITIAL_CARRY_FLAG);
  }

  #[test]
  fn test_ei() {
      let mut cpu = create_cpu(vec![0xFB, 0x00]);
      cpu.ime = false;
      cpu.pending_ime_set = false;
      
      let result = cpu.execute_instruction();
  
      assert_eq!(result.cycles, 4);
      assert_eq!(cpu.ime, false);
      assert_eq!(cpu.pending_ime_set, true);
      assert_eq!(cpu.registers.zero(), INITIAL_ZERO_FLAG);
      assert_eq!(cpu.registers.subtract(), INITIAL_SUBTRACT_FLAG);
      assert_eq!(cpu.registers.half_carry(), INITIAL_HALF_CARRY_FLAG);
      assert_eq!(cpu.registers.carry(), INITIAL_CARRY_FLAG);

      cpu.execute_instruction();

      assert_eq!(cpu.ime, true);
      assert_eq!(cpu.pending_ime_set, false);
  }

  #[test]
  fn test_interrupt() {
    let mut cpu = create_cpu(vec![0xFB, 0x00, 0x00]);
      cpu.ime = false;
      cpu.pending_ime_set = false;
      cpu.memory_bus.write(0xFF0F, 1 << 2);
      cpu.memory_bus.write(0xFFFF, 1 << 2);
      
      cpu.execute_instruction();
      cpu.execute_instruction();
      let result = cpu.execute_instruction();
  
      assert_eq!(result.cycles, 20);
      assert_eq!(cpu.ime, false);
      assert_eq!(cpu.pending_ime_set, false);
      assert_eq!(cpu.registers.zero(), INITIAL_ZERO_FLAG);
      assert_eq!(cpu.registers.subtract(), INITIAL_SUBTRACT_FLAG);
      assert_eq!(cpu.registers.half_carry(), INITIAL_HALF_CARRY_FLAG);
      assert_eq!(cpu.registers.carry(), INITIAL_CARRY_FLAG);

      assert_eq!(cpu.ime, false);
      assert_eq!(cpu.pending_ime_set, false);
      assert_eq!(cpu.registers.get(Register::PC), 0x50);
      assert_eq!(cpu.memory_bus.read(0xFF0F), 0x00);
      
      let sp = cpu.registers.get(Register::SP);
      assert_eq!(sp, INITIAL_SP - 2);

      let old_pc = cpu.memory_bus.read(sp) as u16 | ((cpu.memory_bus.read(sp + 1) as u16) << 8);
      assert_eq!(old_pc, INITIAL_PC + 2);
  }

  #[test]
  fn test_ld_r8_r8() {
    let mut cpu = create_cpu(vec![0x41]);
    cpu.registers.set(Register::B, 0x12);
    cpu.registers.set(Register::C, 0x34);

    let result = cpu.execute_instruction();

    assert_eq!(result.cycles, 4);
    assert_eq!(cpu.registers.get(Register::B), 0x34);
    assert_eq!(cpu.registers.get(Register::C), 0x34);
    assert_eq!(cpu.registers.get(Register::PC), INITIAL_PC + 1);
    assert_eq!(cpu.registers.zero(), INITIAL_ZERO_FLAG);
    assert_eq!(cpu.registers.subtract(), INITIAL_SUBTRACT_FLAG);
    assert_eq!(cpu.registers.half_carry(), INITIAL_HALF_CARRY_FLAG);
    assert_eq!(cpu.registers.carry(), INITIAL_CARRY_FLAG);
  }

  #[test]
  fn test_ld_r8_n8() {
    let mut cpu = create_cpu(vec![0x06, 0x34]);
    cpu.registers.set(Register::B, 0x12);

    let result = cpu.execute_instruction();

    assert_eq!(result.cycles, 8);
    assert_eq!(cpu.registers.get(Register::B), 0x34);
    assert_eq!(cpu.registers.get(Register::PC), INITIAL_PC + 2);
    assert_eq!(cpu.registers.zero(), INITIAL_ZERO_FLAG);
    assert_eq!(cpu.registers.subtract(), INITIAL_SUBTRACT_FLAG);
    assert_eq!(cpu.registers.half_carry(), INITIAL_HALF_CARRY_FLAG);
    assert_eq!(cpu.registers.carry(), INITIAL_CARRY_FLAG);
  }

  #[test]
  fn test_ld_r16_n16() {
    let mut cpu = create_cpu(vec![0x01, 0x34, 0x12]);
    cpu.registers.set(Register::BC, 0x5678);

    let result = cpu.execute_instruction();

    assert_eq!(result.cycles, 12);
    assert_eq!(cpu.registers.get(Register::BC), 0x1234);
    assert_eq!(cpu.registers.get(Register::PC), INITIAL_PC + 3);
    assert_eq!(cpu.registers.zero(), INITIAL_ZERO_FLAG);
    assert_eq!(cpu.registers.subtract(), INITIAL_SUBTRACT_FLAG);
    assert_eq!(cpu.registers.half_carry(), INITIAL_HALF_CARRY_FLAG);
    assert_eq!(cpu.registers.carry(), INITIAL_CARRY_FLAG);
  }

  #[test]
  fn test_ld_hl_mem_r8() {
    let mut cpu = create_cpu(vec![0x70]);
    cpu.registers.set(Register::HL, 0xFF00);
    cpu.registers.set(Register::B, 0x34);

    let result = cpu.execute_instruction();

    assert_eq!(result.cycles, 8);
    assert_eq!(cpu.memory_bus.read(0xFF00), 0x34);
    assert_eq!(cpu.registers.get(Register::PC), INITIAL_PC + 1);
    assert_eq!(cpu.registers.zero(), INITIAL_ZERO_FLAG);
    assert_eq!(cpu.registers.subtract(), INITIAL_SUBTRACT_FLAG);
    assert_eq!(cpu.registers.half_carry(), INITIAL_HALF_CARRY_FLAG);
    assert_eq!(cpu.registers.carry(), INITIAL_CARRY_FLAG);
  }

  #[test]
  fn test_ld_hl_mem_n8() {
    let mut cpu = create_cpu(vec![0x36, 0x34]);
    cpu.registers.set(Register::HL, 0xFF00);

    let result = cpu.execute_instruction();

    assert_eq!(result.cycles, 12);
    assert_eq!(cpu.memory_bus.read(0xFF00), 0x34);
    assert_eq!(cpu.registers.get(Register::PC), INITIAL_PC + 2);
    assert_eq!(cpu.registers.zero(), INITIAL_ZERO_FLAG);
    assert_eq!(cpu.registers.subtract(), INITIAL_SUBTRACT_FLAG);
    assert_eq!(cpu.registers.half_carry(), INITIAL_HALF_CARRY_FLAG);
    assert_eq!(cpu.registers.carry(), INITIAL_CARRY_FLAG);
  }

  #[test]
  fn test_ld_r8_hl_mem() {
    let mut cpu = create_cpu(vec![0x2A]);
    cpu.registers.set(Register::HL, 0xFF00);
    cpu.memory_bus.write(0xFF00, 0x34);

    let result = cpu.execute_instruction();

    assert_eq!(result.cycles, 8);
    assert_eq!(cpu.registers.get(Register::A), 0x34);
    assert_eq!(cpu.registers.get(Register::PC), INITIAL_PC + 1);
    assert_eq!(cpu.registers.zero(), INITIAL_ZERO_FLAG);
    assert_eq!(cpu.registers.subtract(), INITIAL_SUBTRACT_FLAG);
    assert_eq!(cpu.registers.half_carry(), INITIAL_HALF_CARRY_FLAG);
    assert_eq!(cpu.registers.carry(), INITIAL_CARRY_FLAG);
  }

  #[test]
  fn test_ld_r16_mem_a() {
    let mut cpu = create_cpu(vec![0x12]);
    cpu.registers.set(Register::DE, 0xFF00);
    cpu.registers.set(Register::A, 0x34);

    let result = cpu.execute_instruction();

    assert_eq!(result.cycles, 8);
    assert_eq!(cpu.memory_bus.read(0xFF00), 0x34);
    assert_eq!(cpu.registers.get(Register::PC), INITIAL_PC + 1);
    assert_eq!(cpu.registers.zero(), INITIAL_ZERO_FLAG);
    assert_eq!(cpu.registers.subtract(), INITIAL_SUBTRACT_FLAG);
    assert_eq!(cpu.registers.half_carry(), INITIAL_HALF_CARRY_FLAG);
    assert_eq!(cpu.registers.carry(), INITIAL_CARRY_FLAG);
  }

  #[test]
  fn test_ld_a16_a() {
    let mut cpu = create_cpu(vec![0xEA, 0x00, 0xFF]);
    cpu.registers.set(Register::A, 0x34);

    let result = cpu.execute_instruction();

    assert_eq!(result.cycles, 16);
    assert_eq!(cpu.memory_bus.read(0xFF00), 0x34);
    assert_eq!(cpu.registers.get(Register::PC), INITIAL_PC + 3);
    assert_eq!(cpu.registers.zero(), INITIAL_ZERO_FLAG);
    assert_eq!(cpu.registers.subtract(), INITIAL_SUBTRACT_FLAG);
    assert_eq!(cpu.registers.half_carry(), INITIAL_HALF_CARRY_FLAG);
    assert_eq!(cpu.registers.carry(), INITIAL_CARRY_FLAG);
  }

  #[test]
  fn test_ld_a_a16() {
    let mut cpu = create_cpu(vec![0xFA, 0x00, 0xFF]);
    cpu.memory_bus.write(0xFF00, 0x34);

    let result = cpu.execute_instruction();

    assert_eq!(result.cycles, 16);
    assert_eq!(cpu.registers.get(Register::A), 0x34);
    assert_eq!(cpu.registers.get(Register::PC), INITIAL_PC + 3);
    assert_eq!(cpu.registers.zero(), INITIAL_ZERO_FLAG);
    assert_eq!(cpu.registers.subtract(), INITIAL_SUBTRACT_FLAG);
    assert_eq!(cpu.registers.half_carry(), INITIAL_HALF_CARRY_FLAG);
    assert_eq!(cpu.registers.carry(), INITIAL_CARRY_FLAG);
  }

  #[test]
  fn test_ld_a_r16() {
    let mut cpu = create_cpu(vec![0x0A]);
    cpu.registers.set(Register::BC, 0xFF00);
    cpu.memory_bus.write(0xFF00, 0x34);

    let result = cpu.execute_instruction();

    assert_eq!(result.cycles, 8);
    assert_eq!(cpu.registers.get(Register::A), 0x34);
    assert_eq!(cpu.registers.get(Register::PC), INITIAL_PC + 1);
    assert_eq!(cpu.registers.zero(), INITIAL_ZERO_FLAG);
    assert_eq!(cpu.registers.subtract(), INITIAL_SUBTRACT_FLAG);
    assert_eq!(cpu.registers.half_carry(), INITIAL_HALF_CARRY_FLAG);
    assert_eq!(cpu.registers.carry(), INITIAL_CARRY_FLAG);
  }

  #[test]
  fn test_ld_hl_mem_incr_a() {
    let mut cpu = create_cpu(vec![0x22]);
    cpu.registers.set(Register::HL, 0xFF00);
    cpu.registers.set(Register::A, 0x34);

    let result = cpu.execute_instruction();

    assert_eq!(result.cycles, 8);
    assert_eq!(cpu.memory_bus.read(0xFF00), 0x34);
    assert_eq!(cpu.registers.get(Register::HL), 0xFF01);
    assert_eq!(cpu.registers.get(Register::PC), INITIAL_PC + 1);
    assert_eq!(cpu.registers.zero(), INITIAL_ZERO_FLAG);
    assert_eq!(cpu.registers.subtract(), INITIAL_SUBTRACT_FLAG);
    assert_eq!(cpu.registers.half_carry(), INITIAL_HALF_CARRY_FLAG);
    assert_eq!(cpu.registers.carry(), INITIAL_CARRY_FLAG);
  }

  #[test]
  fn test_ld_hl_mem_descr_a() {
    let mut cpu = create_cpu(vec![0x32]);
    cpu.registers.set(Register::HL, 0xFF00);
    cpu.registers.set(Register::A, 0x34);

    let result = cpu.execute_instruction();

    assert_eq!(result.cycles, 8);
    assert_eq!(cpu.memory_bus.read(0xFF00), 0x34);
    assert_eq!(cpu.registers.get(Register::HL), 0xFF00 - 1);
    assert_eq!(cpu.registers.get(Register::PC), INITIAL_PC + 1);
    assert_eq!(cpu.registers.zero(), INITIAL_ZERO_FLAG);
    assert_eq!(cpu.registers.subtract(), INITIAL_SUBTRACT_FLAG);
    assert_eq!(cpu.registers.half_carry(), INITIAL_HALF_CARRY_FLAG);
    assert_eq!(cpu.registers.carry(), INITIAL_CARRY_FLAG);
  }

  #[test]
  fn test_ld_a_hl_mem_descr() {
    let mut cpu = create_cpu(vec![0x3A]);
    cpu.registers.set(Register::HL, 0xFF00);
    cpu.memory_bus.write(0xFF00, 0x34);

    let result = cpu.execute_instruction();

    assert_eq!(result.cycles, 8);
    assert_eq!(cpu.registers.get(Register::A), 0x34);
    assert_eq!(cpu.registers.get(Register::HL), 0xFF00 - 1);
    assert_eq!(cpu.registers.get(Register::PC), INITIAL_PC + 1);
    assert_eq!(cpu.registers.zero(), INITIAL_ZERO_FLAG);
    assert_eq!(cpu.registers.subtract(), INITIAL_SUBTRACT_FLAG);
    assert_eq!(cpu.registers.half_carry(), INITIAL_HALF_CARRY_FLAG);
    assert_eq!(cpu.registers.carry(), INITIAL_CARRY_FLAG);
  }

  #[test]
  fn test_ld_a_hl_mem_incr() {
    let mut cpu = create_cpu(vec![0x2A]);
    cpu.registers.set(Register::HL, 0xFF00);
    cpu.memory_bus.write(0xFF00, 0x34);

    let result = cpu.execute_instruction();

    assert_eq!(result.cycles, 8);
    assert_eq!(cpu.registers.get(Register::A), 0x34);
    assert_eq!(cpu.registers.get(Register::HL), 0xFF00 + 1);
    assert_eq!(cpu.registers.get(Register::PC), INITIAL_PC + 1);
    assert_eq!(cpu.registers.zero(), INITIAL_ZERO_FLAG);
    assert_eq!(cpu.registers.subtract(), INITIAL_SUBTRACT_FLAG);
    assert_eq!(cpu.registers.half_carry(), INITIAL_HALF_CARRY_FLAG);
    assert_eq!(cpu.registers.carry(), INITIAL_CARRY_FLAG);
  }

  #[test]
  fn test_ld_sp_n16() {
    let mut cpu = create_cpu(vec![0x31, 0x00, 0xFF]);
    cpu.registers.set(Register::SP, 0x0000);

    let result = cpu.execute_instruction();

    assert_eq!(result.cycles, 12);
    assert_eq!(cpu.registers.get(Register::SP), 0xFF00);
    assert_eq!(cpu.registers.get(Register::PC), INITIAL_PC + 3);
    assert_eq!(cpu.registers.zero(), INITIAL_ZERO_FLAG);
    assert_eq!(cpu.registers.subtract(), INITIAL_SUBTRACT_FLAG);
    assert_eq!(cpu.registers.half_carry(), INITIAL_HALF_CARRY_FLAG);
    assert_eq!(cpu.registers.carry(), INITIAL_CARRY_FLAG);
  }

  #[test]
  fn test_ld_a16_sp() {
    let mut cpu = create_cpu(vec![0x08, 0x34, 0xF2]);
    cpu.registers.set(Register::SP, 0x1234);

    let result = cpu.execute_instruction();

    assert_eq!(result.cycles, 20);
    assert_eq!(cpu.memory_bus.read(0xF234), 0x34);
    assert_eq!(cpu.memory_bus.read(0xF235), 0x12);
    assert_eq!(cpu.registers.get(Register::SP), 0x1234);
    assert_eq!(cpu.registers.get(Register::PC), INITIAL_PC + 3);
    assert_eq!(cpu.registers.zero(), INITIAL_ZERO_FLAG);
    assert_eq!(cpu.registers.subtract(), INITIAL_SUBTRACT_FLAG);
    assert_eq!(cpu.registers.half_carry(), INITIAL_HALF_CARRY_FLAG);
    assert_eq!(cpu.registers.carry(), INITIAL_CARRY_FLAG);
  }

  #[test]
  fn test_ld_hl_sp_e8_half_carry() {
    let mut cpu = create_cpu(vec![0xF8, 0x01]);
    cpu.registers.set(Register::SP, 0x000F);

    let result = cpu.execute_instruction();

    assert_eq!(result.cycles, 12);
    assert_eq!(cpu.registers.get(Register::SP), 0x000F);
    assert_eq!(cpu.registers.get(Register::HL), 0x0010);
    assert_eq!(cpu.registers.get(Register::PC), INITIAL_PC + 2);
    assert_eq!(cpu.registers.zero(), false);
    assert_eq!(cpu.registers.subtract(), false);
    assert_eq!(cpu.registers.half_carry(), true);
    assert_eq!(cpu.registers.carry(), false);
  }

  #[test]
  fn test_ld_hl_sp_e8_carry() {
    let mut cpu = create_cpu(vec![0xF8, 0x01]);
    cpu.registers.set(Register::SP, 0x00FF);

    let result = cpu.execute_instruction();

    assert_eq!(result.cycles, 12);
    assert_eq!(cpu.registers.get(Register::SP), 0x00FF);
    assert_eq!(cpu.registers.get(Register::HL), 0x0100);
    assert_eq!(cpu.registers.get(Register::PC), INITIAL_PC + 2);
    assert_eq!(cpu.registers.zero(), false);
    assert_eq!(cpu.registers.subtract(), false);
    assert_eq!(cpu.registers.half_carry(), true);
    assert_eq!(cpu.registers.carry(), true);
  }

  #[test]
  fn test_ld_hl_sp_e8_no_carry() {
    let mut cpu = create_cpu(vec![0xF8, 0x01]);
    cpu.registers.set(Register::SP, 0xFFFE);

    let result = cpu.execute_instruction();

    assert_eq!(result.cycles, 12);
    assert_eq!(cpu.registers.get(Register::SP), 0xFFFE);
    assert_eq!(cpu.registers.get(Register::HL), 0xFFFF);
    assert_eq!(cpu.registers.get(Register::PC), INITIAL_PC + 2);
    assert_eq!(cpu.registers.zero(), false);
    assert_eq!(cpu.registers.subtract(), false);
    assert_eq!(cpu.registers.half_carry(), false);
    assert_eq!(cpu.registers.carry(), false);
  }

  #[test]
  fn test_ld_sp_hl() {
    let mut cpu = create_cpu(vec![0xF9]);
    cpu.registers.set(Register::HL, 0x1234);

    let result = cpu.execute_instruction();

    assert_eq!(result.cycles, 8);
    assert_eq!(cpu.registers.get(Register::SP), 0x1234);
    assert_eq!(cpu.registers.get(Register::HL), 0x1234);
    assert_eq!(cpu.registers.get(Register::PC), INITIAL_PC + 1);
    assert_eq!(cpu.registers.zero(), INITIAL_ZERO_FLAG);
    assert_eq!(cpu.registers.subtract(), INITIAL_SUBTRACT_FLAG);
    assert_eq!(cpu.registers.half_carry(), INITIAL_HALF_CARRY_FLAG);
    assert_eq!(cpu.registers.carry(), INITIAL_CARRY_FLAG);
  }

  #[test]
  fn test_ldh_a8_a() {
    let mut cpu = create_cpu(vec![0xE0, 0x80]);
    cpu.registers.set(Register::A, 0x34);

    let result = cpu.execute_instruction();

    assert_eq!(result.cycles, 12);
    assert_eq!(cpu.memory_bus.read(0xFF80), 0x34);
    assert_eq!(cpu.registers.get(Register::PC), INITIAL_PC + 2);
    assert_eq!(cpu.registers.zero(), INITIAL_ZERO_FLAG);
    assert_eq!(cpu.registers.subtract(), INITIAL_SUBTRACT_FLAG);
    assert_eq!(cpu.registers.half_carry(), INITIAL_HALF_CARRY_FLAG);
    assert_eq!(cpu.registers.carry(), INITIAL_CARRY_FLAG);
  }

  #[test]
  fn test_ldh_c_mem_a() {
    let mut cpu = create_cpu(vec![0xE2]);
    cpu.registers.set(Register::C, 0x80);
    cpu.registers.set(Register::A, 0x34);

    let result = cpu.execute_instruction();

    assert_eq!(result.cycles, 8);
    assert_eq!(cpu.memory_bus.read(0xFF80), 0x34);
    assert_eq!(cpu.registers.get(Register::PC), INITIAL_PC + 1);
    assert_eq!(cpu.registers.zero(), INITIAL_ZERO_FLAG);
    assert_eq!(cpu.registers.subtract(), INITIAL_SUBTRACT_FLAG);
    assert_eq!(cpu.registers.half_carry(), INITIAL_HALF_CARRY_FLAG);
    assert_eq!(cpu.registers.carry(), INITIAL_CARRY_FLAG);
  }

  #[test]
  fn test_ldh_a_a8() {
    let mut cpu = create_cpu(vec![0xF0, 0x80]);
    cpu.memory_bus.write(0xFF80, 0x34);

    let result = cpu.execute_instruction();

    assert_eq!(result.cycles, 12);
    assert_eq!(cpu.registers.get(Register::A), 0x34);
    assert_eq!(cpu.registers.get(Register::PC), INITIAL_PC + 2);
    assert_eq!(cpu.registers.zero(), INITIAL_ZERO_FLAG);
    assert_eq!(cpu.registers.subtract(), INITIAL_SUBTRACT_FLAG);
    assert_eq!(cpu.registers.half_carry(), INITIAL_HALF_CARRY_FLAG);
    assert_eq!(cpu.registers.carry(), INITIAL_CARRY_FLAG);
  }

  #[test]
  fn test_ldh_a_c_mem() {
    let mut cpu = create_cpu(vec![0xF2]);
    cpu.registers.set(Register::C, 0x80);
    cpu.memory_bus.write(0xFF80, 0x34);

    let result = cpu.execute_instruction();

    assert_eq!(result.cycles, 8);
    assert_eq!(cpu.registers.get(Register::A), 0x34);
    assert_eq!(cpu.registers.get(Register::PC), INITIAL_PC + 1);
    assert_eq!(cpu.registers.zero(), INITIAL_ZERO_FLAG);
    assert_eq!(cpu.registers.subtract(), INITIAL_SUBTRACT_FLAG);
    assert_eq!(cpu.registers.half_carry(), INITIAL_HALF_CARRY_FLAG);
    assert_eq!(cpu.registers.carry(), INITIAL_CARRY_FLAG);
  }

  #[test]
  fn test_inc_r8_no_carry() {
    let mut cpu = create_cpu(vec![0x0C]);
    cpu.registers.set(Register::C, 0x80);

    let result = cpu.execute_instruction();

    assert_eq!(result.cycles, 4);
    assert_eq!(cpu.registers.get(Register::C), 0x81);
    assert_eq!(cpu.registers.get(Register::PC), INITIAL_PC + 1);
    assert_eq!(cpu.registers.zero(), false);
    assert_eq!(cpu.registers.subtract(), false);
    assert_eq!(cpu.registers.half_carry(), false);
    assert_eq!(cpu.registers.carry(), INITIAL_CARRY_FLAG);
  }

  #[test]
  fn test_inc_r8_carry() {
    let mut cpu = create_cpu(vec![0x0C]);
    cpu.registers.set(Register::C, 0x0F);

    let result = cpu.execute_instruction();

    assert_eq!(result.cycles, 4);
    assert_eq!(cpu.registers.get(Register::C), 0x10);
    assert_eq!(cpu.registers.get(Register::PC), INITIAL_PC + 1);
    assert_eq!(cpu.registers.zero(), false);
    assert_eq!(cpu.registers.subtract(), false);
    assert_eq!(cpu.registers.half_carry(), true);
    assert_eq!(cpu.registers.carry(), INITIAL_CARRY_FLAG);
  }

  #[test]
  fn test_inc_r8_zero() {
    let mut cpu = create_cpu(vec![0x0C]);
    cpu.registers.set(Register::C, 0xFF);
    cpu.registers.set_carry(false);

    let result = cpu.execute_instruction();

    assert_eq!(result.cycles, 4);
    assert_eq!(cpu.registers.get(Register::C), 0x00);
    assert_eq!(cpu.registers.get(Register::PC), INITIAL_PC + 1);
    assert_eq!(cpu.registers.zero(), true);
    assert_eq!(cpu.registers.subtract(), false);
    assert_eq!(cpu.registers.half_carry(), true);
    assert_eq!(cpu.registers.carry(), false);
  }

  #[test]
  fn test_inc_hl_mem_no_carry() {
    let mut cpu = create_cpu(vec![0x34]);
    cpu.registers.set(Register::HL, 0xF234);
    cpu.memory_bus.write(0xF234, 0x80);

    let result = cpu.execute_instruction();

    assert_eq!(result.cycles, 12);
    assert_eq!(cpu.memory_bus.read(0xF234), 0x81);
    assert_eq!(cpu.registers.get(Register::PC), INITIAL_PC + 1);
    assert_eq!(cpu.registers.zero(), false);
    assert_eq!(cpu.registers.subtract(), false);
    assert_eq!(cpu.registers.half_carry(), false);
    assert_eq!(cpu.registers.carry(), INITIAL_CARRY_FLAG);
  }

  #[test]
  fn test_inc_hl_mem_carry() {
    let mut cpu = create_cpu(vec![0x34]);
    cpu.registers.set(Register::HL, 0xF234);
    cpu.memory_bus.write(0xF234, 0x0F);

    let result = cpu.execute_instruction();

    assert_eq!(result.cycles, 12);
    assert_eq!(cpu.memory_bus.read(0xF234), 0x10);
    assert_eq!(cpu.registers.get(Register::PC), INITIAL_PC + 1);
    assert_eq!(cpu.registers.zero(), false);
    assert_eq!(cpu.registers.subtract(), false);
    assert_eq!(cpu.registers.half_carry(), true);
    assert_eq!(cpu.registers.carry(), INITIAL_CARRY_FLAG);
  }

  #[test]
  fn test_inc_hl_mem_zero() {
    let mut cpu = create_cpu(vec![0x34]);
    cpu.registers.set(Register::HL, 0xF234);
    cpu.memory_bus.write(0xF234, 0xFF);
    cpu.registers.set_carry(false);

    let result = cpu.execute_instruction();

    assert_eq!(result.cycles, 12);
    assert_eq!(cpu.memory_bus.read(0xF234), 0x00);
    assert_eq!(cpu.registers.get(Register::PC), INITIAL_PC + 1);
    assert_eq!(cpu.registers.zero(), true);
    assert_eq!(cpu.registers.subtract(), false);
    assert_eq!(cpu.registers.half_carry(), true);
    assert_eq!(cpu.registers.carry(), false);
  }

  #[test]
  fn test_inc_r16() {
    let mut cpu = create_cpu(vec![0x03]);
    cpu.registers.set(Register::BC, 0x10FF);

    let result = cpu.execute_instruction();

    assert_eq!(result.cycles, 8);
    assert_eq!(cpu.registers.get(Register::BC), 0x1100);
    assert_eq!(cpu.registers.get(Register::PC), INITIAL_PC + 1);
    assert_eq!(cpu.registers.zero(), INITIAL_ZERO_FLAG);
    assert_eq!(cpu.registers.subtract(), INITIAL_SUBTRACT_FLAG);
    assert_eq!(cpu.registers.half_carry(), INITIAL_HALF_CARRY_FLAG);
    assert_eq!(cpu.registers.carry(), INITIAL_CARRY_FLAG);
  }

  #[test]
  fn test_inc_sp() {
    let mut cpu = create_cpu(vec![0x33]);
    cpu.registers.set(Register::SP, 0x10FF);

    let result = cpu.execute_instruction();

    assert_eq!(result.cycles, 8);
    assert_eq!(cpu.registers.get(Register::SP), 0x1100);
    assert_eq!(cpu.registers.get(Register::PC), INITIAL_PC + 1);
    assert_eq!(cpu.registers.zero(), INITIAL_ZERO_FLAG);
    assert_eq!(cpu.registers.subtract(), INITIAL_SUBTRACT_FLAG);
    assert_eq!(cpu.registers.half_carry(), INITIAL_HALF_CARRY_FLAG);
    assert_eq!(cpu.registers.carry(), INITIAL_CARRY_FLAG);
  }

  #[test]
  fn test_inc_r16_zero() {
    let mut cpu = create_cpu(vec![0x03]);
    cpu.registers.set(Register::BC, 0xFFFF);
    cpu.registers.set_zero(false);
    cpu.registers.set_subtract(false);
    cpu.registers.set_half_carry(false);
    cpu.registers.set_carry(false);

    let result = cpu.execute_instruction();

    assert_eq!(result.cycles, 8);
    assert_eq!(cpu.registers.get(Register::BC), 0x0000);
    assert_eq!(cpu.registers.get(Register::PC), INITIAL_PC + 1);
    assert_eq!(cpu.registers.zero(), false);
    assert_eq!(cpu.registers.subtract(), false);
    assert_eq!(cpu.registers.half_carry(), false);
    assert_eq!(cpu.registers.carry(), false);
  }

  #[test]
  fn test_inc_sp_zero() {
    let mut cpu = create_cpu(vec![0x33]);
    cpu.registers.set(Register::SP, 0xFFFF);
    cpu.registers.set_zero(false);
    cpu.registers.set_subtract(false);
    cpu.registers.set_half_carry(false);
    cpu.registers.set_carry(false);

    let result = cpu.execute_instruction();

    assert_eq!(result.cycles, 8);
    assert_eq!(cpu.registers.get(Register::SP), 0x0000);
    assert_eq!(cpu.registers.get(Register::PC), INITIAL_PC + 1);
    assert_eq!(cpu.registers.zero(), false);
    assert_eq!(cpu.registers.subtract(), false);
    assert_eq!(cpu.registers.half_carry(), false);
    assert_eq!(cpu.registers.carry(), false);
  }

  #[test]
  fn test_jr_e8() {
    let mut cpu = create_cpu(vec![0x18, 0xFB]);

    let result = cpu.execute_instruction();

    assert_eq!(result.cycles, 12);
    assert_eq!(cpu.registers.get(Register::PC), INITIAL_PC - 3);
    assert_eq!(cpu.registers.zero(), INITIAL_ZERO_FLAG);
    assert_eq!(cpu.registers.subtract(), INITIAL_SUBTRACT_FLAG);
    assert_eq!(cpu.registers.half_carry(), INITIAL_HALF_CARRY_FLAG);
    assert_eq!(cpu.registers.carry(), INITIAL_CARRY_FLAG);
  }

  #[test]
  fn test_jr_nz_e8_taken() {
    let mut cpu = create_cpu(vec![0x20, 0xFB]);
    cpu.registers.set_zero(false);

    let result = cpu.execute_instruction();

    assert_eq!(result.cycles, 12);
    assert_eq!(cpu.registers.get(Register::PC), INITIAL_PC - 3);
    assert_eq!(cpu.registers.zero(), false);
    assert_eq!(cpu.registers.subtract(), INITIAL_SUBTRACT_FLAG);
    assert_eq!(cpu.registers.half_carry(), INITIAL_HALF_CARRY_FLAG);
    assert_eq!(cpu.registers.carry(), INITIAL_CARRY_FLAG);
  }

  #[test]
  fn test_jr_nz_e8_untaken() {
    let mut cpu = create_cpu(vec![0x20, 0xFB]);
    cpu.registers.set_zero(true);

    let result = cpu.execute_instruction();

    assert_eq!(result.cycles, 8);
    assert_eq!(cpu.registers.get(Register::PC), INITIAL_PC + 2);
    assert_eq!(cpu.registers.zero(), true);
    assert_eq!(cpu.registers.subtract(), INITIAL_SUBTRACT_FLAG);
    assert_eq!(cpu.registers.half_carry(), INITIAL_HALF_CARRY_FLAG);
    assert_eq!(cpu.registers.carry(), INITIAL_CARRY_FLAG);
  }

  #[test]
  fn test_jr_z_e8_taken() {
    let mut cpu = create_cpu(vec![0x28, 0xFB]);
    cpu.registers.set_zero(true);

    let result = cpu.execute_instruction();

    assert_eq!(result.cycles, 12);
    assert_eq!(cpu.registers.get(Register::PC), INITIAL_PC - 3);
    assert_eq!(cpu.registers.zero(), true);
    assert_eq!(cpu.registers.subtract(), INITIAL_SUBTRACT_FLAG);
    assert_eq!(cpu.registers.half_carry(), INITIAL_HALF_CARRY_FLAG);
    assert_eq!(cpu.registers.carry(), INITIAL_CARRY_FLAG);
  }

  #[test]
  fn test_jr_z_e8_untaken() {
    let mut cpu = create_cpu(vec![0x28, 0xFB]);
    cpu.registers.set_zero(false);

    let result = cpu.execute_instruction();

    assert_eq!(result.cycles, 8);
    assert_eq!(cpu.registers.get(Register::PC), INITIAL_PC + 2);
    assert_eq!(cpu.registers.zero(), false);
    assert_eq!(cpu.registers.subtract(), INITIAL_SUBTRACT_FLAG);
    assert_eq!(cpu.registers.half_carry(), INITIAL_HALF_CARRY_FLAG);
    assert_eq!(cpu.registers.carry(), INITIAL_CARRY_FLAG);
  }

  #[test]
  fn test_jr_nc_e8_taken() {
    let mut cpu = create_cpu(vec![0x30, 0xFB]);
    cpu.registers.set_carry(false);

    let result = cpu.execute_instruction();

    assert_eq!(result.cycles, 12);
    assert_eq!(cpu.registers.get(Register::PC), INITIAL_PC - 3);
    assert_eq!(cpu.registers.zero(), INITIAL_ZERO_FLAG);
    assert_eq!(cpu.registers.subtract(), INITIAL_SUBTRACT_FLAG);
    assert_eq!(cpu.registers.half_carry(), INITIAL_HALF_CARRY_FLAG);
    assert_eq!(cpu.registers.carry(), false);
  }

  #[test]
  fn test_jr_nc_e8_untaken() {
    let mut cpu = create_cpu(vec![0x30, 0xFB]);
    cpu.registers.set_carry(true);

    let result = cpu.execute_instruction();

    assert_eq!(result.cycles, 8);
    assert_eq!(cpu.registers.get(Register::PC), INITIAL_PC + 2);
    assert_eq!(cpu.registers.zero(), INITIAL_ZERO_FLAG);
    assert_eq!(cpu.registers.subtract(), INITIAL_SUBTRACT_FLAG);
    assert_eq!(cpu.registers.half_carry(), INITIAL_HALF_CARRY_FLAG);
    assert_eq!(cpu.registers.carry(), true);
  }

  #[test]
  fn test_jr_c_e8_taken() {
    let mut cpu = create_cpu(vec![0x38, 0xFB]);
    cpu.registers.set_carry(true);

    let result = cpu.execute_instruction();

    assert_eq!(result.cycles, 12);
    assert_eq!(cpu.registers.get(Register::PC), INITIAL_PC - 3);
    assert_eq!(cpu.registers.zero(), INITIAL_ZERO_FLAG);
    assert_eq!(cpu.registers.subtract(), INITIAL_SUBTRACT_FLAG);
    assert_eq!(cpu.registers.half_carry(), INITIAL_HALF_CARRY_FLAG);
    assert_eq!(cpu.registers.carry(), true);
  }

  #[test]
  fn test_jr_c_e8_untaken() {
    let mut cpu = create_cpu(vec![0x38, 0xFB]);
    cpu.registers.set_carry(false);

    let result = cpu.execute_instruction();

    assert_eq!(result.cycles, 8);
    assert_eq!(cpu.registers.get(Register::PC), INITIAL_PC + 2);
    assert_eq!(cpu.registers.zero(), INITIAL_ZERO_FLAG);
    assert_eq!(cpu.registers.subtract(), INITIAL_SUBTRACT_FLAG);
    assert_eq!(cpu.registers.half_carry(), INITIAL_HALF_CARRY_FLAG);
    assert_eq!(cpu.registers.carry(), false);
  }

  #[test]
  fn test_dec_r8_no_carry() {
    let mut cpu = create_cpu(vec![0x3D]);
    cpu.registers.set(Register::A, 0x81);

    let result = cpu.execute_instruction();

    assert_eq!(result.cycles, 4);
    assert_eq!(cpu.registers.get(Register::A), 0x80);
    assert_eq!(cpu.registers.get(Register::PC), INITIAL_PC + 1);
    assert_eq!(cpu.registers.zero(), false);
    assert_eq!(cpu.registers.subtract(), true);
    assert_eq!(cpu.registers.half_carry(), false);
    assert_eq!(cpu.registers.carry(), INITIAL_CARRY_FLAG);
  }

  #[test]
  fn test_dec_r8_carry() {
    let mut cpu = create_cpu(vec![0x3D]);
    cpu.registers.set(Register::A, 0x80);

    let result = cpu.execute_instruction();

    assert_eq!(result.cycles, 4);
    assert_eq!(cpu.registers.get(Register::A), 0x7F);
    assert_eq!(cpu.registers.get(Register::PC), INITIAL_PC + 1);
    assert_eq!(cpu.registers.zero(), false);
    assert_eq!(cpu.registers.subtract(), true);
    assert_eq!(cpu.registers.half_carry(), true);
    assert_eq!(cpu.registers.carry(), INITIAL_CARRY_FLAG);
  }

  #[test]
  fn test_dec_r8_zero() {
    let mut cpu = create_cpu(vec![0x3D]);
    cpu.registers.set(Register::A, 0x01);
    cpu.registers.set_carry(false);

    let result = cpu.execute_instruction();

    assert_eq!(result.cycles, 4);
    assert_eq!(cpu.registers.get(Register::A), 0x00);
    assert_eq!(cpu.registers.get(Register::PC), INITIAL_PC + 1);
    assert_eq!(cpu.registers.zero(), true);
    assert_eq!(cpu.registers.subtract(), true);
    assert_eq!(cpu.registers.half_carry(), false);
    assert_eq!(cpu.registers.carry(), false);
  }

  #[test]
  fn test_dec_hl_mem_no_carry() {
    let mut cpu = create_cpu(vec![0x35]);
    cpu.registers.set(Register::HL, 0xF234);
    cpu.memory_bus.write(0xF234, 0x81);

    let result = cpu.execute_instruction();

    assert_eq!(result.cycles, 12);
    assert_eq!(cpu.memory_bus.read(0xF234), 0x80);
    assert_eq!(cpu.registers.get(Register::PC), INITIAL_PC + 1);
    assert_eq!(cpu.registers.zero(), false);
    assert_eq!(cpu.registers.subtract(), true);
    assert_eq!(cpu.registers.half_carry(), false);
    assert_eq!(cpu.registers.carry(), INITIAL_CARRY_FLAG);
  }

  #[test]
  fn test_dec_hl_mem_carry() {
    let mut cpu = create_cpu(vec![0x35]);
    cpu.registers.set(Register::HL, 0xF234);
    cpu.memory_bus.write(0xF234, 0x80);

    let result = cpu.execute_instruction();

    assert_eq!(result.cycles, 12);
    assert_eq!(cpu.memory_bus.read(0xF234), 0x7F);
    assert_eq!(cpu.registers.get(Register::PC), INITIAL_PC + 1);
    assert_eq!(cpu.registers.zero(), false);
    assert_eq!(cpu.registers.subtract(), true);
    assert_eq!(cpu.registers.half_carry(), true);
    assert_eq!(cpu.registers.carry(), INITIAL_CARRY_FLAG);
  }

  #[test]
  fn test_dec_hl_mem_zero() {
    let mut cpu = create_cpu(vec![0x35]);
    cpu.registers.set(Register::HL, 0xF234);
    cpu.memory_bus.write(0xF234, 0x01);
    cpu.registers.set_carry(false);

    let result = cpu.execute_instruction();

    assert_eq!(result.cycles, 12);
    assert_eq!(cpu.memory_bus.read(0xF234), 0x00);
    assert_eq!(cpu.registers.get(Register::PC), INITIAL_PC + 1);
    assert_eq!(cpu.registers.zero(), true);
    assert_eq!(cpu.registers.subtract(), true);
    assert_eq!(cpu.registers.half_carry(), false);
    assert_eq!(cpu.registers.carry(), false);
  }

  #[test]
  fn test_dec_r16() {
    let mut cpu = create_cpu(vec![0x1B]);
    cpu.registers.set(Register::DE, 0x10FF);

    let result = cpu.execute_instruction();

    assert_eq!(result.cycles, 8);
    assert_eq!(cpu.registers.get(Register::DE), 0x10FE);
    assert_eq!(cpu.registers.get(Register::PC), INITIAL_PC + 1);
    assert_eq!(cpu.registers.zero(), INITIAL_ZERO_FLAG);
    assert_eq!(cpu.registers.subtract(), INITIAL_SUBTRACT_FLAG);
    assert_eq!(cpu.registers.half_carry(), INITIAL_HALF_CARRY_FLAG);
    assert_eq!(cpu.registers.carry(), INITIAL_CARRY_FLAG);
  }

  #[test]
  fn test_dec_sp() {
    let mut cpu = create_cpu(vec![0x3B]);
    cpu.registers.set(Register::SP, 0x10FF);

    let result = cpu.execute_instruction();

    assert_eq!(result.cycles, 8);
    assert_eq!(cpu.registers.get(Register::SP), 0x10FE);
    assert_eq!(cpu.registers.get(Register::PC), INITIAL_PC + 1);
    assert_eq!(cpu.registers.zero(), INITIAL_ZERO_FLAG);
    assert_eq!(cpu.registers.subtract(), INITIAL_SUBTRACT_FLAG);
    assert_eq!(cpu.registers.half_carry(), INITIAL_HALF_CARRY_FLAG);
    assert_eq!(cpu.registers.carry(), INITIAL_CARRY_FLAG);
  }

  #[test]
  fn test_dec_r16_zero() {
    let mut cpu = create_cpu(vec![0x1B]);
    cpu.registers.set(Register::DE, 0x0001);
    cpu.registers.set_zero(false);
    cpu.registers.set_subtract(false);
    cpu.registers.set_half_carry(false);
    cpu.registers.set_carry(false);

    let result = cpu.execute_instruction();

    assert_eq!(result.cycles, 8);
    assert_eq!(cpu.registers.get(Register::DE), 0x0000);
    assert_eq!(cpu.registers.get(Register::PC), INITIAL_PC + 1);
    assert_eq!(cpu.registers.zero(), false);
    assert_eq!(cpu.registers.subtract(), false);
    assert_eq!(cpu.registers.half_carry(), false);
    assert_eq!(cpu.registers.carry(), false);
  }

  #[test]
  fn test_dec_sp_zero() {
    let mut cpu = create_cpu(vec![0x3B]);
    cpu.registers.set(Register::SP, 0x0001);
    cpu.registers.set_zero(false);
    cpu.registers.set_subtract(false);
    cpu.registers.set_half_carry(false);
    cpu.registers.set_carry(false);

    let result = cpu.execute_instruction();

    assert_eq!(result.cycles, 8);
    assert_eq!(cpu.registers.get(Register::SP), 0x0000);
    assert_eq!(cpu.registers.get(Register::PC), INITIAL_PC + 1);
    assert_eq!(cpu.registers.zero(), false);
    assert_eq!(cpu.registers.subtract(), false);
    assert_eq!(cpu.registers.half_carry(), false);
    assert_eq!(cpu.registers.carry(), false);
  }

  #[test]
  fn test_call_n16() {
    let mut cpu = create_cpu(vec![0xCD, 0x34, 0x12]);

    let result = cpu.execute_instruction();
    let sp = cpu.registers.get(Register::SP);

    assert_eq!(sp, INITIAL_SP - 2);
    assert_eq!(cpu.registers.get(Register::PC), 0x1234);
    assert_eq!(cpu.memory_bus.read(sp), (INITIAL_PC + 3) as u8);
    assert_eq!(cpu.memory_bus.read(sp + 1), ((INITIAL_PC + 3) >> 8) as u8);

    assert_eq!(result.cycles, 24);
    assert_eq!(cpu.registers.zero(), INITIAL_ZERO_FLAG);
    assert_eq!(cpu.registers.subtract(), INITIAL_SUBTRACT_FLAG);
    assert_eq!(cpu.registers.half_carry(), INITIAL_HALF_CARRY_FLAG);
    assert_eq!(cpu.registers.carry(), INITIAL_CARRY_FLAG);
  }

  #[test]
  fn test_call_nz_n16_taken() {
    let mut cpu = create_cpu(vec![0xC4, 0x34, 0x12]);
    cpu.registers.set_zero(false);

    let result = cpu.execute_instruction();
    let sp = cpu.registers.get(Register::SP);

    assert_eq!(sp, INITIAL_SP - 2);
    assert_eq!(cpu.registers.get(Register::PC), 0x1234);
    assert_eq!(cpu.memory_bus.read(sp), (INITIAL_PC + 3) as u8);
    assert_eq!(cpu.memory_bus.read(sp + 1), ((INITIAL_PC + 3) >> 8) as u8);

    assert_eq!(result.cycles, 24);
    assert_eq!(cpu.registers.zero(), false);
    assert_eq!(cpu.registers.subtract(), INITIAL_SUBTRACT_FLAG);
    assert_eq!(cpu.registers.half_carry(), INITIAL_HALF_CARRY_FLAG);
    assert_eq!(cpu.registers.carry(), INITIAL_CARRY_FLAG);
  }

  #[test]
  fn test_call_nz_n16_untaken() {
    let mut cpu = create_cpu(vec![0xC4, 0x34, 0x12]);
    cpu.registers.set_zero(true);

    let result = cpu.execute_instruction();
    let sp = cpu.registers.get(Register::SP);

    assert_eq!(sp, INITIAL_SP);
    assert_eq!(cpu.registers.get(Register::PC), INITIAL_PC + 3);

    assert_eq!(result.cycles, 12);
    assert_eq!(cpu.registers.zero(), true);
    assert_eq!(cpu.registers.subtract(), INITIAL_SUBTRACT_FLAG);
    assert_eq!(cpu.registers.half_carry(), INITIAL_HALF_CARRY_FLAG);
    assert_eq!(cpu.registers.carry(), INITIAL_CARRY_FLAG);
  }

  #[test]
  fn test_call_z_n16_taken() {
    let mut cpu = create_cpu(vec![0xCC, 0x34, 0x12]);
    cpu.registers.set_zero(true);

    let result = cpu.execute_instruction();
    let sp = cpu.registers.get(Register::SP);

    assert_eq!(sp, INITIAL_SP - 2);
    assert_eq!(cpu.registers.get(Register::PC), 0x1234);
    assert_eq!(cpu.memory_bus.read(sp), (INITIAL_PC + 3) as u8);
    assert_eq!(cpu.memory_bus.read(sp + 1), ((INITIAL_PC + 3) >> 8) as u8);

    assert_eq!(result.cycles, 24);
    assert_eq!(cpu.registers.zero(), true);
    assert_eq!(cpu.registers.subtract(), INITIAL_SUBTRACT_FLAG);
    assert_eq!(cpu.registers.half_carry(), INITIAL_HALF_CARRY_FLAG);
    assert_eq!(cpu.registers.carry(), INITIAL_CARRY_FLAG);
  }

  #[test]
  fn test_call_z_n16_untaken() {
    let mut cpu = create_cpu(vec![0xCC, 0x34, 0x12]);
    cpu.registers.set_zero(false);

    let result = cpu.execute_instruction();
    let sp = cpu.registers.get(Register::SP);

    assert_eq!(sp, INITIAL_SP);
    assert_eq!(cpu.registers.get(Register::PC), INITIAL_PC + 3);

    assert_eq!(result.cycles, 12);
    assert_eq!(cpu.registers.zero(), false);
    assert_eq!(cpu.registers.subtract(), INITIAL_SUBTRACT_FLAG);
    assert_eq!(cpu.registers.half_carry(), INITIAL_HALF_CARRY_FLAG);
    assert_eq!(cpu.registers.carry(), INITIAL_CARRY_FLAG);
  }

  #[test]
  fn test_call_nc_n16_taken() {
    let mut cpu = create_cpu(vec![0xD4, 0x34, 0x12]);
    cpu.registers.set_carry(false);

    let result = cpu.execute_instruction();
    let sp = cpu.registers.get(Register::SP);

    assert_eq!(sp, INITIAL_SP - 2);
    assert_eq!(cpu.registers.get(Register::PC), 0x1234);
    assert_eq!(cpu.memory_bus.read(sp), (INITIAL_PC + 3) as u8);
    assert_eq!(cpu.memory_bus.read(sp + 1), ((INITIAL_PC + 3) >> 8) as u8);

    assert_eq!(result.cycles, 24);
    assert_eq!(cpu.registers.zero(), INITIAL_ZERO_FLAG);
    assert_eq!(cpu.registers.subtract(), INITIAL_SUBTRACT_FLAG);
    assert_eq!(cpu.registers.half_carry(), INITIAL_HALF_CARRY_FLAG);
    assert_eq!(cpu.registers.carry(), false);
  }

  #[test]
  fn test_call_nc_n16_untaken() {
    let mut cpu = create_cpu(vec![0xD4, 0x34, 0x12]);
    cpu.registers.set_carry(true);

    let result = cpu.execute_instruction();
    let sp = cpu.registers.get(Register::SP);

    assert_eq!(sp, INITIAL_SP);
    assert_eq!(cpu.registers.get(Register::PC), INITIAL_PC + 3);

    assert_eq!(result.cycles, 12);
    assert_eq!(cpu.registers.zero(), INITIAL_ZERO_FLAG);
    assert_eq!(cpu.registers.subtract(), INITIAL_SUBTRACT_FLAG);
    assert_eq!(cpu.registers.half_carry(), INITIAL_HALF_CARRY_FLAG);
    assert_eq!(cpu.registers.carry(), true);
  }

  #[test]
  fn test_call_c_n16_taken() {
    let mut cpu = create_cpu(vec![0xDC, 0x34, 0x12]);
    cpu.registers.set_carry(true);

    let result = cpu.execute_instruction();
    let sp = cpu.registers.get(Register::SP);

    assert_eq!(sp, INITIAL_SP - 2);
    assert_eq!(cpu.registers.get(Register::PC), 0x1234);
    assert_eq!(cpu.memory_bus.read(sp), (INITIAL_PC + 3) as u8);
    assert_eq!(cpu.memory_bus.read(sp + 1), ((INITIAL_PC + 3) >> 8) as u8);

    assert_eq!(result.cycles, 24);
    assert_eq!(cpu.registers.zero(), INITIAL_ZERO_FLAG);
    assert_eq!(cpu.registers.subtract(), INITIAL_SUBTRACT_FLAG);
    assert_eq!(cpu.registers.half_carry(), INITIAL_HALF_CARRY_FLAG);
    assert_eq!(cpu.registers.carry(), true);
  }

  #[test]
  fn test_call_c_n16_untaken() {
    let mut cpu = create_cpu(vec![0xDC, 0x34, 0x12]);
    cpu.registers.set_carry(false);

    let result = cpu.execute_instruction();
    let sp = cpu.registers.get(Register::SP);

    assert_eq!(sp, INITIAL_SP);
    assert_eq!(cpu.registers.get(Register::PC), INITIAL_PC + 3);

    assert_eq!(result.cycles, 12);
    assert_eq!(cpu.registers.zero(), INITIAL_ZERO_FLAG);
    assert_eq!(cpu.registers.subtract(), INITIAL_SUBTRACT_FLAG);
    assert_eq!(cpu.registers.half_carry(), INITIAL_HALF_CARRY_FLAG);
    assert_eq!(cpu.registers.carry(), false);
  }

  #[test]
  fn test_rst_00() {
    let mut cpu = create_cpu(vec![0xC7]);

    let result = cpu.execute_instruction();
    let sp = cpu.registers.get(Register::SP);

    assert_eq!(sp, INITIAL_SP - 2);
    assert_eq!(cpu.registers.get(Register::PC), 0x0000);
    assert_eq!(cpu.memory_bus.read(sp), (INITIAL_PC + 1) as u8);
    assert_eq!(cpu.memory_bus.read(sp + 1), ((INITIAL_PC + 1) >> 8) as u8);

    assert_eq!(result.cycles, 16);
    assert_eq!(cpu.registers.zero(), INITIAL_ZERO_FLAG);
    assert_eq!(cpu.registers.subtract(), INITIAL_SUBTRACT_FLAG);
    assert_eq!(cpu.registers.half_carry(), INITIAL_HALF_CARRY_FLAG);
    assert_eq!(cpu.registers.carry(), INITIAL_CARRY_FLAG);
  }

  #[test]
  fn test_rst_08() {
    let mut cpu = create_cpu(vec![0xCF]);

    let result = cpu.execute_instruction();
    let sp = cpu.registers.get(Register::SP);

    assert_eq!(sp, INITIAL_SP - 2);
    assert_eq!(cpu.registers.get(Register::PC), 0x0008);
    assert_eq!(cpu.memory_bus.read(sp), (INITIAL_PC + 1) as u8);
    assert_eq!(cpu.memory_bus.read(sp + 1), ((INITIAL_PC + 1) >> 8) as u8);

    assert_eq!(result.cycles, 16);
    assert_eq!(cpu.registers.zero(), INITIAL_ZERO_FLAG);
    assert_eq!(cpu.registers.subtract(), INITIAL_SUBTRACT_FLAG);
    assert_eq!(cpu.registers.half_carry(), INITIAL_HALF_CARRY_FLAG);
    assert_eq!(cpu.registers.carry(), INITIAL_CARRY_FLAG);
  }

  #[test]
  fn test_rst_10() {
    let mut cpu = create_cpu(vec![0xD7]);

    let result = cpu.execute_instruction();
    let sp = cpu.registers.get(Register::SP);

    assert_eq!(sp, INITIAL_SP - 2);
    assert_eq!(cpu.registers.get(Register::PC), 0x0010);
    assert_eq!(cpu.memory_bus.read(sp), (INITIAL_PC + 1) as u8);
    assert_eq!(cpu.memory_bus.read(sp + 1), ((INITIAL_PC + 1) >> 8) as u8);

    assert_eq!(result.cycles, 16);
    assert_eq!(cpu.registers.zero(), INITIAL_ZERO_FLAG);
    assert_eq!(cpu.registers.subtract(), INITIAL_SUBTRACT_FLAG);
    assert_eq!(cpu.registers.half_carry(), INITIAL_HALF_CARRY_FLAG);
    assert_eq!(cpu.registers.carry(), INITIAL_CARRY_FLAG);
  }

  #[test]
  fn test_rst_18() {
    let mut cpu = create_cpu(vec![0xDF]);

    let result = cpu.execute_instruction();
    let sp = cpu.registers.get(Register::SP);

    assert_eq!(sp, INITIAL_SP - 2);
    assert_eq!(cpu.registers.get(Register::PC), 0x0018);
    assert_eq!(cpu.memory_bus.read(sp), (INITIAL_PC + 1) as u8);
    assert_eq!(cpu.memory_bus.read(sp + 1), ((INITIAL_PC + 1) >> 8) as u8);

    assert_eq!(result.cycles, 16);
    assert_eq!(cpu.registers.zero(), INITIAL_ZERO_FLAG);
    assert_eq!(cpu.registers.subtract(), INITIAL_SUBTRACT_FLAG);
    assert_eq!(cpu.registers.half_carry(), INITIAL_HALF_CARRY_FLAG);
    assert_eq!(cpu.registers.carry(), INITIAL_CARRY_FLAG);
  }

  #[test]
  fn test_rst_20() {
    let mut cpu = create_cpu(vec![0xE7]);

    let result = cpu.execute_instruction();
    let sp = cpu.registers.get(Register::SP);

    assert_eq!(sp, INITIAL_SP - 2);
    assert_eq!(cpu.registers.get(Register::PC), 0x0020);
    assert_eq!(cpu.memory_bus.read(sp), (INITIAL_PC + 1) as u8);
    assert_eq!(cpu.memory_bus.read(sp + 1), ((INITIAL_PC + 1) >> 8) as u8);

    assert_eq!(result.cycles, 16);
    assert_eq!(cpu.registers.zero(), INITIAL_ZERO_FLAG);
    assert_eq!(cpu.registers.subtract(), INITIAL_SUBTRACT_FLAG);
    assert_eq!(cpu.registers.half_carry(), INITIAL_HALF_CARRY_FLAG);
    assert_eq!(cpu.registers.carry(), INITIAL_CARRY_FLAG);
  }

  #[test]
  fn test_rst_28() {
    let mut cpu = create_cpu(vec![0xEF]);

    let result = cpu.execute_instruction();
    let sp = cpu.registers.get(Register::SP);

    assert_eq!(sp, INITIAL_SP - 2);
    assert_eq!(cpu.registers.get(Register::PC), 0x0028);
    assert_eq!(cpu.memory_bus.read(sp), (INITIAL_PC + 1) as u8);
    assert_eq!(cpu.memory_bus.read(sp + 1), ((INITIAL_PC + 1) >> 8) as u8);

    assert_eq!(result.cycles, 16);
    assert_eq!(cpu.registers.zero(), INITIAL_ZERO_FLAG);
    assert_eq!(cpu.registers.subtract(), INITIAL_SUBTRACT_FLAG);
    assert_eq!(cpu.registers.half_carry(), INITIAL_HALF_CARRY_FLAG);
    assert_eq!(cpu.registers.carry(), INITIAL_CARRY_FLAG);
  }

  #[test]
  fn test_rst_30() {
    let mut cpu = create_cpu(vec![0xF7]);

    let result = cpu.execute_instruction();
    let sp = cpu.registers.get(Register::SP);

    assert_eq!(sp, INITIAL_SP - 2);
    assert_eq!(cpu.registers.get(Register::PC), 0x0030);
    assert_eq!(cpu.memory_bus.read(sp), (INITIAL_PC + 1) as u8);
    assert_eq!(cpu.memory_bus.read(sp + 1), ((INITIAL_PC + 1) >> 8) as u8);

    assert_eq!(result.cycles, 16);
    assert_eq!(cpu.registers.zero(), INITIAL_ZERO_FLAG);
    assert_eq!(cpu.registers.subtract(), INITIAL_SUBTRACT_FLAG);
    assert_eq!(cpu.registers.half_carry(), INITIAL_HALF_CARRY_FLAG);
    assert_eq!(cpu.registers.carry(), INITIAL_CARRY_FLAG);
  }

  #[test]
  fn test_rst_38() {
    let mut cpu = create_cpu(vec![0xFF]);

    let result = cpu.execute_instruction();
    let sp = cpu.registers.get(Register::SP);

    assert_eq!(sp, INITIAL_SP - 2);
    assert_eq!(cpu.registers.get(Register::PC), 0x0038);
    assert_eq!(cpu.memory_bus.read(sp), (INITIAL_PC + 1) as u8);
    assert_eq!(cpu.memory_bus.read(sp + 1), ((INITIAL_PC + 1) >> 8) as u8);

    assert_eq!(result.cycles, 16);
    assert_eq!(cpu.registers.zero(), INITIAL_ZERO_FLAG);
    assert_eq!(cpu.registers.subtract(), INITIAL_SUBTRACT_FLAG);
    assert_eq!(cpu.registers.half_carry(), INITIAL_HALF_CARRY_FLAG);
    assert_eq!(cpu.registers.carry(), INITIAL_CARRY_FLAG);
  }

  #[test]
  fn test_pop_af() {
    let mut cpu = create_cpu(vec![0xF1]);
    cpu.stack16(0x12F0);

    let result = cpu.execute_instruction();

    assert_eq!(cpu.registers.get(Register::SP), INITIAL_SP);
    assert_eq!(cpu.registers.get(Register::PC), INITIAL_PC + 1);
    assert_eq!(cpu.registers.get(Register::AF), 0x12F0);

    assert_eq!(result.cycles, 12);
    assert_eq!(cpu.registers.zero(), true);
    assert_eq!(cpu.registers.subtract(), true);
    assert_eq!(cpu.registers.half_carry(), true);
    assert_eq!(cpu.registers.carry(), true);
  }

  #[test]
  fn test_pop_r16() {
    let mut cpu = create_cpu(vec![0xC1]);
    cpu.stack16(0x1234);

    let result = cpu.execute_instruction();

    assert_eq!(cpu.registers.get(Register::SP), INITIAL_SP);
    assert_eq!(cpu.registers.get(Register::PC), INITIAL_PC + 1);
    assert_eq!(cpu.registers.get(Register::BC), 0x1234);

    assert_eq!(result.cycles, 12);
    assert_eq!(cpu.registers.zero(), INITIAL_ZERO_FLAG);
    assert_eq!(cpu.registers.subtract(), INITIAL_SUBTRACT_FLAG);
    assert_eq!(cpu.registers.half_carry(), INITIAL_HALF_CARRY_FLAG);
    assert_eq!(cpu.registers.carry(), INITIAL_CARRY_FLAG);
  }

  #[test]
  fn test_push_af() {
    let mut cpu = create_cpu(vec![0xF5]);

    let result = cpu.execute_instruction();

    let sp = cpu.registers.get(Register::SP);

    assert_eq!(sp, INITIAL_SP - 2);
    assert_eq!(cpu.memory_bus.read(sp), cpu.registers.get(Register::F) as u8);
    assert_eq!(cpu.memory_bus.read(sp + 1), cpu.registers.get(Register::A) as u8);
    assert_eq!(cpu.registers.get(Register::PC), INITIAL_PC + 1);

    assert_eq!(result.cycles, 16);
    assert_eq!(cpu.registers.zero(), INITIAL_ZERO_FLAG);
    assert_eq!(cpu.registers.subtract(), INITIAL_SUBTRACT_FLAG);
    assert_eq!(cpu.registers.half_carry(), INITIAL_HALF_CARRY_FLAG);
    assert_eq!(cpu.registers.carry(), INITIAL_CARRY_FLAG);
  }

  #[test]
  fn test_push_r16() {
    let mut cpu = create_cpu(vec![0xC5]);

    let result = cpu.execute_instruction();

    let sp = cpu.registers.get(Register::SP);

    assert_eq!(sp, INITIAL_SP - 2);
    assert_eq!(cpu.memory_bus.read(sp), cpu.registers.get(Register::C) as u8);
    assert_eq!(cpu.memory_bus.read(sp + 1), cpu.registers.get(Register::B) as u8);
    assert_eq!(cpu.registers.get(Register::PC), INITIAL_PC + 1);

    assert_eq!(result.cycles, 16);
    assert_eq!(cpu.registers.zero(), INITIAL_ZERO_FLAG);
    assert_eq!(cpu.registers.subtract(), INITIAL_SUBTRACT_FLAG);
    assert_eq!(cpu.registers.half_carry(), INITIAL_HALF_CARRY_FLAG);
    assert_eq!(cpu.registers.carry(), INITIAL_CARRY_FLAG);
  }

  #[test]
  fn test_ret() {
    let mut cpu = create_cpu(vec![0xC9]);
    cpu.stack16(0x1234);

    let result = cpu.execute_instruction();

    let sp = cpu.registers.get(Register::SP);

    assert_eq!(sp, INITIAL_SP);
    assert_eq!(cpu.registers.get(Register::PC), 0x1234);

    assert_eq!(result.cycles, 16);
    assert_eq!(cpu.registers.zero(), INITIAL_ZERO_FLAG);
    assert_eq!(cpu.registers.subtract(), INITIAL_SUBTRACT_FLAG);
    assert_eq!(cpu.registers.half_carry(), INITIAL_HALF_CARRY_FLAG);
    assert_eq!(cpu.registers.carry(), INITIAL_CARRY_FLAG);
  }

  #[test]
  fn test_ret_nz_taken() {
    let mut cpu = create_cpu(vec![0xC0]);
    cpu.registers.set_zero(false);
    cpu.stack16(0x1234);

    let result = cpu.execute_instruction();

    let sp = cpu.registers.get(Register::SP);

    assert_eq!(sp, INITIAL_SP);
    assert_eq!(cpu.registers.get(Register::PC), 0x1234);

    assert_eq!(result.cycles, 20);
    assert_eq!(cpu.registers.zero(), false);
    assert_eq!(cpu.registers.subtract(), INITIAL_SUBTRACT_FLAG);
    assert_eq!(cpu.registers.half_carry(), INITIAL_HALF_CARRY_FLAG);
    assert_eq!(cpu.registers.carry(), INITIAL_CARRY_FLAG);
  }

  #[test]
  fn test_ret_nz_untaken() {
    let mut cpu = create_cpu(vec![0xC0]);
    cpu.registers.set_zero(true);
    cpu.stack16(0x1234);

    let result = cpu.execute_instruction();

    let sp = cpu.registers.get(Register::SP);

    assert_eq!(sp, INITIAL_SP - 2);
    assert_eq!(cpu.registers.get(Register::PC), INITIAL_PC + 1);

    assert_eq!(result.cycles, 8);
    assert_eq!(cpu.registers.zero(), true);
    assert_eq!(cpu.registers.subtract(), INITIAL_SUBTRACT_FLAG);
    assert_eq!(cpu.registers.half_carry(), INITIAL_HALF_CARRY_FLAG);
    assert_eq!(cpu.registers.carry(), INITIAL_CARRY_FLAG);
  }

  #[test]
  fn test_ret_z_taken() {
    let mut cpu = create_cpu(vec![0xC8]);
    cpu.registers.set_zero(true);
    cpu.stack16(0x1234);

    let result = cpu.execute_instruction();

    let sp = cpu.registers.get(Register::SP);

    assert_eq!(sp, INITIAL_SP);
    assert_eq!(cpu.registers.get(Register::PC), 0x1234);

    assert_eq!(result.cycles, 20);
    assert_eq!(cpu.registers.zero(), true);
    assert_eq!(cpu.registers.subtract(), INITIAL_SUBTRACT_FLAG);
    assert_eq!(cpu.registers.half_carry(), INITIAL_HALF_CARRY_FLAG);
    assert_eq!(cpu.registers.carry(), INITIAL_CARRY_FLAG);
  }

  #[test]
  fn test_ret_z_untaken() {
    let mut cpu = create_cpu(vec![0xC8]);
    cpu.registers.set_zero(false);
    cpu.stack16(0x1234);

    let result = cpu.execute_instruction();

    let sp = cpu.registers.get(Register::SP);

    assert_eq!(sp, INITIAL_SP - 2);
    assert_eq!(cpu.registers.get(Register::PC), INITIAL_PC + 1);

    assert_eq!(result.cycles, 8);
    assert_eq!(cpu.registers.zero(), false);
    assert_eq!(cpu.registers.subtract(), INITIAL_SUBTRACT_FLAG);
    assert_eq!(cpu.registers.half_carry(), INITIAL_HALF_CARRY_FLAG);
    assert_eq!(cpu.registers.carry(), INITIAL_CARRY_FLAG);
  }

  #[test]
  fn test_ret_nc_taken() {
    let mut cpu = create_cpu(vec![0xD0]);
    cpu.registers.set_carry(false);
    cpu.stack16(0x1234);

    let result = cpu.execute_instruction();

    let sp = cpu.registers.get(Register::SP);

    assert_eq!(sp, INITIAL_SP);
    assert_eq!(cpu.registers.get(Register::PC), 0x1234);

    assert_eq!(result.cycles, 20);
    assert_eq!(cpu.registers.zero(), INITIAL_ZERO_FLAG);
    assert_eq!(cpu.registers.subtract(), INITIAL_SUBTRACT_FLAG);
    assert_eq!(cpu.registers.half_carry(), INITIAL_HALF_CARRY_FLAG);
    assert_eq!(cpu.registers.carry(), false);
  }

  #[test]
  fn test_ret_nc_untaken() {
    let mut cpu = create_cpu(vec![0xD0]);
    cpu.registers.set_carry(true);
    cpu.stack16(0x1234);

    let result = cpu.execute_instruction();

    let sp = cpu.registers.get(Register::SP);

    assert_eq!(sp, INITIAL_SP - 2);
    assert_eq!(cpu.registers.get(Register::PC), INITIAL_PC + 1);

    assert_eq!(result.cycles, 8);
    assert_eq!(cpu.registers.zero(), INITIAL_ZERO_FLAG);
    assert_eq!(cpu.registers.subtract(), INITIAL_SUBTRACT_FLAG);
    assert_eq!(cpu.registers.half_carry(), INITIAL_HALF_CARRY_FLAG);
    assert_eq!(cpu.registers.carry(), true);
  }

  #[test]
  fn test_ret_c_taken() {
    let mut cpu = create_cpu(vec![0xD8]);
    cpu.registers.set_carry(true);
    cpu.stack16(0x1234);

    let result = cpu.execute_instruction();

    let sp = cpu.registers.get(Register::SP);

    assert_eq!(sp, INITIAL_SP);
    assert_eq!(cpu.registers.get(Register::PC), 0x1234);

    assert_eq!(result.cycles, 20);
    assert_eq!(cpu.registers.zero(), INITIAL_ZERO_FLAG);
    assert_eq!(cpu.registers.subtract(), INITIAL_SUBTRACT_FLAG);
    assert_eq!(cpu.registers.half_carry(), INITIAL_HALF_CARRY_FLAG);
    assert_eq!(cpu.registers.carry(), true);
  }

  #[test]
  fn test_ret_c_untaken() {
    let mut cpu = create_cpu(vec![0xD8]);
    cpu.registers.set_carry(false);
    cpu.stack16(0x1234);

    let result = cpu.execute_instruction();

    let sp = cpu.registers.get(Register::SP);

    assert_eq!(sp, INITIAL_SP - 2);
    assert_eq!(cpu.registers.get(Register::PC), INITIAL_PC + 1);

    assert_eq!(result.cycles, 8);
    assert_eq!(cpu.registers.zero(), INITIAL_ZERO_FLAG);
    assert_eq!(cpu.registers.subtract(), INITIAL_SUBTRACT_FLAG);
    assert_eq!(cpu.registers.half_carry(), INITIAL_HALF_CARRY_FLAG);
    assert_eq!(cpu.registers.carry(), false);
  }

  #[test]
  fn test_reti_basic() {
    let mut cpu = create_cpu(vec![0xD9]);
    cpu.stack16(0x1234);
    cpu.ime = false;

    let result = cpu.execute_instruction();

    let sp = cpu.registers.get(Register::SP);

    assert_eq!(sp, INITIAL_SP);
    assert_eq!(cpu.registers.get(Register::PC), 0x1234);
    assert_eq!(cpu.ime, true);
    assert_eq!(cpu.pending_ime_set, false);

    assert_eq!(result.cycles, 16);
    assert_eq!(cpu.registers.zero(), INITIAL_ZERO_FLAG);
    assert_eq!(cpu.registers.subtract(), INITIAL_SUBTRACT_FLAG);
    assert_eq!(cpu.registers.half_carry(), INITIAL_HALF_CARRY_FLAG);
    assert_eq!(cpu.registers.carry(), INITIAL_CARRY_FLAG);
  }

  #[test]
  fn test_reti_different_address() {
    let mut cpu = create_cpu(vec![0xD9]);
    cpu.stack16(0x5678);
    cpu.ime = false;

    let result = cpu.execute_instruction();

    let sp = cpu.registers.get(Register::SP);

    assert_eq!(sp, INITIAL_SP);
    assert_eq!(cpu.registers.get(Register::PC), 0x5678);
    assert_eq!(cpu.ime, true);
    assert_eq!(cpu.pending_ime_set, false);

    assert_eq!(result.cycles, 16);
  }

  #[test]
  fn test_reti_zero_address() {
    let mut cpu = create_cpu(vec![0xD9]);
    cpu.stack16(0x0000);
    cpu.ime = false;

    let result = cpu.execute_instruction();

    assert_eq!(cpu.registers.get(Register::PC), 0x0000);
    assert_eq!(cpu.ime, true);
    assert_eq!(cpu.pending_ime_set, false);

    assert_eq!(result.cycles, 16);
  }

  #[test]
  fn test_reti_high_address() {
    let mut cpu = create_cpu(vec![0xD9]);
    cpu.stack16(0xFFFF);
    cpu.ime = false;

    let result = cpu.execute_instruction();

    assert_eq!(cpu.registers.get(Register::PC), 0xFFFF);
    assert_eq!(cpu.ime, true);
    assert_eq!(cpu.pending_ime_set, false);

    assert_eq!(result.cycles, 16);
  }

  #[test]
  fn test_reti_enables_ime_immediately() {
    let mut cpu = create_cpu(vec![0xD9, 0x00]);
    cpu.stack16(0x1234);
    cpu.ime = false;

    let result = cpu.execute_instruction();

    assert_eq!(cpu.ime, true);
    assert_eq!(cpu.pending_ime_set, false);
    assert_eq!(result.cycles, 16);
  }

  #[test]
  fn test_reti_preserves_flags() {
    let mut cpu = create_cpu(vec![0xD9]);
    cpu.stack16(0x3000);
    cpu.ime = false;
    cpu.registers.set_zero(true);
    cpu.registers.set_subtract(true);
    cpu.registers.set_half_carry(true);
    cpu.registers.set_carry(true);

    let _result = cpu.execute_instruction();

    assert_eq!(cpu.registers.zero(), true);
    assert_eq!(cpu.registers.subtract(), true);
    assert_eq!(cpu.registers.half_carry(), true);
    assert_eq!(cpu.registers.carry(), true);
  }

  #[test]
  fn test_or_a_r8_non_zero() {
    let mut cpu = create_cpu(vec![0xB0]);
    cpu.registers.set(Register::A, 0x0001);
    cpu.registers.set(Register::B, 0x0002);

    let result = cpu.execute_instruction();

    assert_eq!(cpu.registers.get(Register::A), 0x0003);
    assert_eq!(cpu.registers.get(Register::PC), INITIAL_PC + 1);

    assert_eq!(result.cycles, 4);
    assert_eq!(cpu.registers.zero(), false);
    assert_eq!(cpu.registers.subtract(), false);
    assert_eq!(cpu.registers.half_carry(), false);
    assert_eq!(cpu.registers.carry(), false);
  }

  #[test]
  fn test_or_a_r8_zero() {
    let mut cpu = create_cpu(vec![0xB0]);
    cpu.registers.set(Register::A, 0x0000);
    cpu.registers.set(Register::B, 0x0000);

    let result = cpu.execute_instruction();

    assert_eq!(cpu.registers.get(Register::A), 0x0000);
    assert_eq!(cpu.registers.get(Register::PC), INITIAL_PC + 1);

    assert_eq!(result.cycles, 4);
    assert_eq!(cpu.registers.zero(), true);
    assert_eq!(cpu.registers.subtract(), false);
    assert_eq!(cpu.registers.half_carry(), false);
    assert_eq!(cpu.registers.carry(), false);
  }

  #[test]
  fn test_or_a_hl_mem_non_zero() {
    let mut cpu = create_cpu(vec![0xB6]);
    cpu.registers.set(Register::A, 0x0001);
    cpu.registers.set(Register::HL, 0xF234);
    cpu.memory_bus.write(0xF234, 0x0002);

    let result = cpu.execute_instruction();

    assert_eq!(cpu.registers.get(Register::A), 0x0003);
    assert_eq!(cpu.registers.get(Register::PC), INITIAL_PC + 1);

    assert_eq!(result.cycles, 8);
    assert_eq!(cpu.registers.zero(), false);
    assert_eq!(cpu.registers.subtract(), false);
    assert_eq!(cpu.registers.half_carry(), false);
    assert_eq!(cpu.registers.carry(), false);
  }

  #[test]
  fn test_or_a_hl_mem_zero() {
    let mut cpu = create_cpu(vec![0xB6]);
    cpu.registers.set(Register::A, 0x0000);
    cpu.registers.set(Register::HL, 0xF234);
    cpu.memory_bus.write(0xF234, 0x0000);

    let result = cpu.execute_instruction();

    assert_eq!(cpu.registers.get(Register::A), 0x0000);
    assert_eq!(cpu.registers.get(Register::PC), INITIAL_PC + 1);

    assert_eq!(result.cycles, 8);
    assert_eq!(cpu.registers.zero(), true);
    assert_eq!(cpu.registers.subtract(), false);
    assert_eq!(cpu.registers.half_carry(), false);
    assert_eq!(cpu.registers.carry(), false);
  }

  #[test]
  fn test_or_a_n8_non_zero() {
    let mut cpu = create_cpu(vec![0xF6, 0x02]);
    cpu.registers.set(Register::A, 0x0001);

    let result = cpu.execute_instruction();

    assert_eq!(cpu.registers.get(Register::A), 0x0003);
    assert_eq!(cpu.registers.get(Register::PC), INITIAL_PC + 2);

    assert_eq!(result.cycles, 8);
    assert_eq!(cpu.registers.zero(), false);
    assert_eq!(cpu.registers.subtract(), false);
    assert_eq!(cpu.registers.half_carry(), false);
    assert_eq!(cpu.registers.carry(), false);
  }

  #[test]
  fn test_or_a_n8_zero() {
    let mut cpu = create_cpu(vec![0xF6, 0x00]);
    cpu.registers.set(Register::A, 0x0000);

    let result = cpu.execute_instruction();

    assert_eq!(cpu.registers.get(Register::A), 0x0000);
    assert_eq!(cpu.registers.get(Register::PC), INITIAL_PC + 2);

    assert_eq!(result.cycles, 8);
    assert_eq!(cpu.registers.zero(), true);
    assert_eq!(cpu.registers.subtract(), false);
    assert_eq!(cpu.registers.half_carry(), false);
    assert_eq!(cpu.registers.carry(), false);
  }

  #[test]
  fn test_add_a_r8_no_carry() {
    let mut cpu = create_cpu(vec![0x80]);
    cpu.registers.set(Register::A, 0x04);
    cpu.registers.set(Register::B, 0x05);

    let result = cpu.execute_instruction();

    assert_eq!(cpu.registers.get(Register::A), 0x0009);
    assert_eq!(cpu.registers.get(Register::PC), INITIAL_PC + 1);

    assert_eq!(result.cycles, 4);
    assert_eq!(cpu.registers.zero(), false);
    assert_eq!(cpu.registers.subtract(), false);
    assert_eq!(cpu.registers.half_carry(), false);
    assert_eq!(cpu.registers.carry(), false);
  }

  #[test]
  fn test_add_a_r8_half_carry() {
    let mut cpu = create_cpu(vec![0x80]);
    cpu.registers.set(Register::A, 0x04);
    cpu.registers.set(Register::B, 0x0D);

    let result = cpu.execute_instruction();

    assert_eq!(cpu.registers.get(Register::A), 0x0011);
    assert_eq!(cpu.registers.get(Register::PC), INITIAL_PC + 1);

    assert_eq!(result.cycles, 4);
    assert_eq!(cpu.registers.zero(), false);
    assert_eq!(cpu.registers.subtract(), false);
    assert_eq!(cpu.registers.half_carry(), true);
    assert_eq!(cpu.registers.carry(), false);
  }

  #[test]
  fn test_add_a_r8_carry() {
    let mut cpu = create_cpu(vec![0x80]);
    cpu.registers.set(Register::A, 0x04);
    cpu.registers.set(Register::B, 0xFE);

    let result = cpu.execute_instruction();

    assert_eq!(cpu.registers.get(Register::A), 0x0002);
    assert_eq!(cpu.registers.get(Register::PC), INITIAL_PC + 1);

    assert_eq!(result.cycles, 4);
    assert_eq!(cpu.registers.zero(), false);
    assert_eq!(cpu.registers.subtract(), false);
    assert_eq!(cpu.registers.half_carry(), true);
    assert_eq!(cpu.registers.carry(), true);
  }

  #[test]
  fn test_add_a_r8_zero() {
    let mut cpu = create_cpu(vec![0x80]);
    cpu.registers.set(Register::A, 0x02);
    cpu.registers.set(Register::B, 0xFE);

    let result = cpu.execute_instruction();

    assert_eq!(cpu.registers.get(Register::A), 0x0000);
    assert_eq!(cpu.registers.get(Register::PC), INITIAL_PC + 1);

    assert_eq!(result.cycles, 4);
    assert_eq!(cpu.registers.zero(), true);
    assert_eq!(cpu.registers.subtract(), false);
    assert_eq!(cpu.registers.half_carry(), true);
    assert_eq!(cpu.registers.carry(), true);
  }

  #[test]
  fn test_add_a_hl_mem_no_carry() {
    let mut cpu = create_cpu(vec![0x86]);
    cpu.registers.set(Register::A, 0x04);
    cpu.registers.set(Register::HL, 0xF234);
    cpu.memory_bus.write(0xF234, 0x05);

    let result = cpu.execute_instruction();

    assert_eq!(cpu.registers.get(Register::A), 0x0009);
    assert_eq!(cpu.registers.get(Register::PC), INITIAL_PC + 1);

    assert_eq!(result.cycles, 8);
    assert_eq!(cpu.registers.zero(), false);
    assert_eq!(cpu.registers.subtract(), false);
    assert_eq!(cpu.registers.half_carry(), false);
    assert_eq!(cpu.registers.carry(), false);
  }

  #[test]
  fn test_add_a_hl_mem_half_carry() {
    let mut cpu = create_cpu(vec![0x86]);
    cpu.registers.set(Register::A, 0x04);
    cpu.registers.set(Register::HL, 0xF234);
    cpu.memory_bus.write(0xF234, 0x0D);

    let result = cpu.execute_instruction();

    assert_eq!(cpu.registers.get(Register::A), 0x0011);
    assert_eq!(cpu.registers.get(Register::PC), INITIAL_PC + 1);

    assert_eq!(result.cycles, 8);
    assert_eq!(cpu.registers.zero(), false);
    assert_eq!(cpu.registers.subtract(), false);
    assert_eq!(cpu.registers.half_carry(), true);
    assert_eq!(cpu.registers.carry(), false);
  }

  #[test]
  fn test_add_a_hl_mem_carry() {
    let mut cpu = create_cpu(vec![0x86]);
    cpu.registers.set(Register::A, 0x04);
    cpu.registers.set(Register::HL, 0xF234);
    cpu.memory_bus.write(0xF234, 0xFE);

    let result = cpu.execute_instruction();

    assert_eq!(cpu.registers.get(Register::A), 0x0002);
    assert_eq!(cpu.registers.get(Register::PC), INITIAL_PC + 1);

    assert_eq!(result.cycles, 8);
    assert_eq!(cpu.registers.zero(), false);
    assert_eq!(cpu.registers.subtract(), false);
    assert_eq!(cpu.registers.half_carry(), true);
    assert_eq!(cpu.registers.carry(), true);
  }

  #[test]
  fn test_add_a_hl_mem_zero() {
    let mut cpu = create_cpu(vec![0x86]);
    cpu.registers.set(Register::A, 0x02);
    cpu.registers.set(Register::HL, 0xF234);
    cpu.memory_bus.write(0xF234, 0xFE);

    let result = cpu.execute_instruction();

    assert_eq!(cpu.registers.get(Register::A), 0x0000);
    assert_eq!(cpu.registers.get(Register::PC), INITIAL_PC + 1);

    assert_eq!(result.cycles, 8);
    assert_eq!(cpu.registers.zero(), true);
    assert_eq!(cpu.registers.subtract(), false);
    assert_eq!(cpu.registers.half_carry(), true);
    assert_eq!(cpu.registers.carry(), true);
  }

  #[test]
  fn test_add_a_n8_no_carry() {
    let mut cpu = create_cpu(vec![0xC6, 0x05]);
    cpu.registers.set(Register::A, 0x04);

    let result = cpu.execute_instruction();

    assert_eq!(cpu.registers.get(Register::A), 0x0009);
    assert_eq!(cpu.registers.get(Register::PC), INITIAL_PC + 2);

    assert_eq!(result.cycles, 8);
    assert_eq!(cpu.registers.zero(), false);
    assert_eq!(cpu.registers.subtract(), false);
    assert_eq!(cpu.registers.half_carry(), false);
    assert_eq!(cpu.registers.carry(), false);
  }

  #[test]
  fn test_add_a_n8_half_carry() {
    let mut cpu = create_cpu(vec![0xC6, 0x0D]);
    cpu.registers.set(Register::A, 0x04);

    let result = cpu.execute_instruction();

    assert_eq!(cpu.registers.get(Register::A), 0x0011);
    assert_eq!(cpu.registers.get(Register::PC), INITIAL_PC + 2);

    assert_eq!(result.cycles, 8);
    assert_eq!(cpu.registers.zero(), false);
    assert_eq!(cpu.registers.subtract(), false);
    assert_eq!(cpu.registers.half_carry(), true);
    assert_eq!(cpu.registers.carry(), false);
  }

  #[test]
  fn test_add_a_n8_carry() {
    let mut cpu = create_cpu(vec![0xC6, 0xFE]);
    cpu.registers.set(Register::A, 0x04);

    let result = cpu.execute_instruction();

    assert_eq!(cpu.registers.get(Register::A), 0x0002);
    assert_eq!(cpu.registers.get(Register::PC), INITIAL_PC + 2);

    assert_eq!(result.cycles, 8);
    assert_eq!(cpu.registers.zero(), false);
    assert_eq!(cpu.registers.subtract(), false);
    assert_eq!(cpu.registers.half_carry(), true);
    assert_eq!(cpu.registers.carry(), true);
  }

  #[test]
  fn test_add_a_n8_zero() {
    let mut cpu = create_cpu(vec![0xC6, 0xFE]);
    cpu.registers.set(Register::A, 0x02);

    let result = cpu.execute_instruction();

    assert_eq!(cpu.registers.get(Register::A), 0x0000);
    assert_eq!(cpu.registers.get(Register::PC), INITIAL_PC + 2);

    assert_eq!(result.cycles, 8);
    assert_eq!(cpu.registers.zero(), true);
    assert_eq!(cpu.registers.subtract(), false);
    assert_eq!(cpu.registers.half_carry(), true);
    assert_eq!(cpu.registers.carry(), true);
  }

  #[test]
  fn test_add_hl_r16_no_carry() {
    let mut cpu = create_cpu(vec![0x09]);
    cpu.registers.set(Register::HL, 0x0F04);
    cpu.registers.set(Register::BC, 0x0005);

    let result = cpu.execute_instruction();

    assert_eq!(cpu.registers.get(Register::HL), 0x0F09);
    assert_eq!(cpu.registers.get(Register::PC), INITIAL_PC + 1);

    assert_eq!(result.cycles, 8);
    assert_eq!(cpu.registers.zero(), INITIAL_ZERO_FLAG);
    assert_eq!(cpu.registers.subtract(), false);
    assert_eq!(cpu.registers.half_carry(), false);
    assert_eq!(cpu.registers.carry(), false);
  }

  #[test]
  fn test_add_hl_r16_half_carry() {
    let mut cpu = create_cpu(vec![0x09]);
    cpu.registers.set(Register::HL, 0x0FFD);
    cpu.registers.set(Register::BC, 0x0005);

    let result = cpu.execute_instruction();

    assert_eq!(cpu.registers.get(Register::HL), 0x1002);
    assert_eq!(cpu.registers.get(Register::PC), INITIAL_PC + 1);

    assert_eq!(result.cycles, 8);
    assert_eq!(cpu.registers.zero(), INITIAL_ZERO_FLAG);
    assert_eq!(cpu.registers.subtract(), false);
    assert_eq!(cpu.registers.half_carry(), true);
    assert_eq!(cpu.registers.carry(), false);
  }

  #[test]
  fn test_add_hl_r16_carry() {
    let mut cpu = create_cpu(vec![0x09]);
    cpu.registers.set(Register::HL, 0xFFFD);
    cpu.registers.set(Register::BC, 0x0005);

    let result = cpu.execute_instruction();

    assert_eq!(cpu.registers.get(Register::HL), 0x0002);
    assert_eq!(cpu.registers.get(Register::PC), INITIAL_PC + 1);

    assert_eq!(result.cycles, 8);
    assert_eq!(cpu.registers.zero(), INITIAL_ZERO_FLAG);
    assert_eq!(cpu.registers.subtract(), false);
    assert_eq!(cpu.registers.half_carry(), true);
    assert_eq!(cpu.registers.carry(), true);
  }

  #[test]
  fn test_add_hl_r16_zero() {
    let mut cpu = create_cpu(vec![0x09]);
    cpu.registers.set_zero(false);
    cpu.registers.set(Register::HL, 0xFFFD);
    cpu.registers.set(Register::BC, 0x0003);

    let result = cpu.execute_instruction();

    assert_eq!(cpu.registers.get(Register::HL), 0x0000);
    assert_eq!(cpu.registers.get(Register::PC), INITIAL_PC + 1);

    assert_eq!(result.cycles, 8);
    assert_eq!(cpu.registers.zero(), false);
    assert_eq!(cpu.registers.subtract(), false);
    assert_eq!(cpu.registers.half_carry(), true);
    assert_eq!(cpu.registers.carry(), true);
  }

  #[test]
  fn test_add_hl_sp_no_carry() {
    let mut cpu = create_cpu(vec![0x39]);
    cpu.registers.set(Register::HL, 0x0F04);
    cpu.registers.set(Register::SP, 0x0005);

    let result = cpu.execute_instruction();

    assert_eq!(cpu.registers.get(Register::HL), 0x0F09);
    assert_eq!(cpu.registers.get(Register::PC), INITIAL_PC + 1);

    assert_eq!(result.cycles, 8);
    assert_eq!(cpu.registers.zero(), INITIAL_ZERO_FLAG);
    assert_eq!(cpu.registers.subtract(), false);
    assert_eq!(cpu.registers.half_carry(), false);
    assert_eq!(cpu.registers.carry(), false);
  }

  #[test]
  fn test_add_hl_sp_half_carry() {
    let mut cpu = create_cpu(vec![0x39]);
    cpu.registers.set(Register::HL, 0x0FFD);
    cpu.registers.set(Register::SP, 0x0005);

    let result = cpu.execute_instruction();

    assert_eq!(cpu.registers.get(Register::HL), 0x1002);
    assert_eq!(cpu.registers.get(Register::PC), INITIAL_PC + 1);

    assert_eq!(result.cycles, 8);
    assert_eq!(cpu.registers.zero(), INITIAL_ZERO_FLAG);
    assert_eq!(cpu.registers.subtract(), false);
    assert_eq!(cpu.registers.half_carry(), true);
    assert_eq!(cpu.registers.carry(), false);
  }

  #[test]
  fn test_add_hl_sp_carry() {
    let mut cpu = create_cpu(vec![0x39]);
    cpu.registers.set(Register::HL, 0xFFFD);
    cpu.registers.set(Register::SP, 0x0005);

    let result = cpu.execute_instruction();

    assert_eq!(cpu.registers.get(Register::HL), 0x0002);
    assert_eq!(cpu.registers.get(Register::PC), INITIAL_PC + 1);

    assert_eq!(result.cycles, 8);
    assert_eq!(cpu.registers.zero(), INITIAL_ZERO_FLAG);
    assert_eq!(cpu.registers.subtract(), false);
    assert_eq!(cpu.registers.half_carry(), true);
    assert_eq!(cpu.registers.carry(), true);
  }

  #[test]
  fn test_add_hl_sp_zero() {
    let mut cpu = create_cpu(vec![0x39]);
    cpu.registers.set_zero(false);
    cpu.registers.set(Register::HL, 0xFFFD);
    cpu.registers.set(Register::SP, 0x0003);

    let result = cpu.execute_instruction();

    assert_eq!(cpu.registers.get(Register::HL), 0x0000);
    assert_eq!(cpu.registers.get(Register::PC), INITIAL_PC + 1);

    assert_eq!(result.cycles, 8);
    assert_eq!(cpu.registers.zero(), false);
    assert_eq!(cpu.registers.subtract(), false);
    assert_eq!(cpu.registers.half_carry(), true);
    assert_eq!(cpu.registers.carry(), true);
  }

  #[test]
  fn test_add_sp_e8_no_carry() {
    let mut cpu = create_cpu(vec![0xE8, 0x05]);
    cpu.registers.set(Register::SP, 0x0F04);

    let result = cpu.execute_instruction();

    assert_eq!(cpu.registers.get(Register::SP), 0x0F09);
    assert_eq!(cpu.registers.get(Register::PC), INITIAL_PC + 2);

    assert_eq!(result.cycles, 16);
    assert_eq!(cpu.registers.zero(), false);
    assert_eq!(cpu.registers.subtract(), false);
    assert_eq!(cpu.registers.half_carry(), false);
    assert_eq!(cpu.registers.carry(), false);
  }

  #[test]
  fn test_add_sp_e8_half_carry() {
    let mut cpu = create_cpu(vec![0xE8, 0x05]);
    cpu.registers.set(Register::SP, 0x000D);

    let result = cpu.execute_instruction();

    assert_eq!(cpu.registers.get(Register::SP), 0x0012);
    assert_eq!(cpu.registers.get(Register::PC), INITIAL_PC + 2);

    assert_eq!(result.cycles, 16);
    assert_eq!(cpu.registers.zero(), false);
    assert_eq!(cpu.registers.subtract(), false);
    assert_eq!(cpu.registers.half_carry(), true);
    assert_eq!(cpu.registers.carry(), false);
  }

  #[test]
  fn test_add_sp_e8_carry() {
    let mut cpu = create_cpu(vec![0xE8, 0xFF]);
    cpu.registers.set(Register::SP, 0x00FD);

    let result = cpu.execute_instruction();

    assert_eq!(cpu.registers.get(Register::SP), 0x00FC);
    assert_eq!(cpu.registers.get(Register::PC), INITIAL_PC + 2);

    assert_eq!(result.cycles, 16);
    assert_eq!(cpu.registers.zero(), false);
    assert_eq!(cpu.registers.subtract(), false);
    assert_eq!(cpu.registers.half_carry(), true);
    assert_eq!(cpu.registers.carry(), true);
  }

  #[test]
  fn test_add_sp_e8_zero() {
    let mut cpu = create_cpu(vec![0xE8, 0xFF]);
    cpu.registers.set_zero(true);
    cpu.registers.set(Register::SP, 0x0001);

    let result = cpu.execute_instruction();

    assert_eq!(cpu.registers.get(Register::SP), 0x0000);
    assert_eq!(cpu.registers.get(Register::PC), INITIAL_PC + 2);

    assert_eq!(result.cycles, 16);
    assert_eq!(cpu.registers.zero(), false);
    assert_eq!(cpu.registers.subtract(), false);
    assert_eq!(cpu.registers.half_carry(), true);
    assert_eq!(cpu.registers.carry(), true);
  }

  #[test]
  fn test_sub_a_r8_no_carry() {
    let mut cpu = create_cpu(vec![0x90]);
    cpu.registers.set(Register::A, 0x35);
    cpu.registers.set(Register::B, 0x05);

    let result = cpu.execute_instruction();

    assert_eq!(cpu.registers.get(Register::A), 0x30);
    assert_eq!(cpu.registers.get(Register::PC), INITIAL_PC + 1);

    assert_eq!(result.cycles, 4);
    assert_eq!(cpu.registers.zero(), false);
    assert_eq!(cpu.registers.subtract(), true);
    assert_eq!(cpu.registers.half_carry(), false);
    assert_eq!(cpu.registers.carry(), false);
  }

  #[test]
  fn test_sub_a_r8_half_carry() {
    let mut cpu = create_cpu(vec![0x90]);
    cpu.registers.set(Register::A, 0x30);
    cpu.registers.set(Register::B, 0x05);

    let result = cpu.execute_instruction();

    assert_eq!(cpu.registers.get(Register::A), 0x2B);
    assert_eq!(cpu.registers.get(Register::PC), INITIAL_PC + 1);

    assert_eq!(result.cycles, 4);
    assert_eq!(cpu.registers.zero(), false);
    assert_eq!(cpu.registers.subtract(), true);
    assert_eq!(cpu.registers.half_carry(), true);
    assert_eq!(cpu.registers.carry(), false);
  }

  #[test]
  fn test_sub_a_r8_carry() {
    let mut cpu = create_cpu(vec![0x90]);
    cpu.registers.set(Register::A, 0x05);
    cpu.registers.set(Register::B, 0x0A);

    let result = cpu.execute_instruction();

    assert_eq!(cpu.registers.get(Register::A), 0xFB);
    assert_eq!(cpu.registers.get(Register::PC), INITIAL_PC + 1);

    assert_eq!(result.cycles, 4);
    assert_eq!(cpu.registers.zero(), false);
    assert_eq!(cpu.registers.subtract(), true);
    assert_eq!(cpu.registers.half_carry(), true);
    assert_eq!(cpu.registers.carry(), true);
  }

  #[test]
  fn test_sub_a_r8_zero() {
    let mut cpu = create_cpu(vec![0x90]);
    cpu.registers.set(Register::A, 0x05);
    cpu.registers.set(Register::B, 0x05);

    let result = cpu.execute_instruction();

    assert_eq!(cpu.registers.get(Register::A), 0x00);
    assert_eq!(cpu.registers.get(Register::PC), INITIAL_PC + 1);

    assert_eq!(result.cycles, 4);
    assert_eq!(cpu.registers.zero(), true);
    assert_eq!(cpu.registers.subtract(), true);
    assert_eq!(cpu.registers.half_carry(), false);
    assert_eq!(cpu.registers.carry(), false);
  }

  #[test]
  fn test_sub_a_hl_mem_no_carry() {
    let mut cpu = create_cpu(vec![0x96]);
    cpu.registers.set(Register::A, 0x35);
    cpu.registers.set(Register::HL, 0xF234);
    cpu.memory_bus.write(0xF234, 0x05);

    let result = cpu.execute_instruction();

    assert_eq!(cpu.registers.get(Register::A), 0x30);
    assert_eq!(cpu.registers.get(Register::PC), INITIAL_PC + 1);

    assert_eq!(result.cycles, 8);
    assert_eq!(cpu.registers.zero(), false);
    assert_eq!(cpu.registers.subtract(), true);
    assert_eq!(cpu.registers.half_carry(), false);
    assert_eq!(cpu.registers.carry(), false);
  }

  #[test]
  fn test_sub_a_hl_mem_half_carry() {
    let mut cpu = create_cpu(vec![0x96]);
    cpu.registers.set(Register::A, 0x30);
    cpu.registers.set(Register::HL, 0xF234);
    cpu.memory_bus.write(0xF234, 0x05);

    let result = cpu.execute_instruction();

    assert_eq!(cpu.registers.get(Register::A), 0x2B);
    assert_eq!(cpu.registers.get(Register::PC), INITIAL_PC + 1);

    assert_eq!(result.cycles, 8);
    assert_eq!(cpu.registers.zero(), false);
    assert_eq!(cpu.registers.subtract(), true);
    assert_eq!(cpu.registers.half_carry(), true);
    assert_eq!(cpu.registers.carry(), false);
  }

  #[test]
  fn test_sub_a_hl_mem_carry() {
    let mut cpu = create_cpu(vec![0x96]);
    cpu.registers.set(Register::A, 0x05);
    cpu.registers.set(Register::HL, 0xF234);
    cpu.memory_bus.write(0xF234, 0x0A);

    let result = cpu.execute_instruction();

    assert_eq!(cpu.registers.get(Register::A), 0xFB);
    assert_eq!(cpu.registers.get(Register::PC), INITIAL_PC + 1);

    assert_eq!(result.cycles, 8);
    assert_eq!(cpu.registers.zero(), false);
    assert_eq!(cpu.registers.subtract(), true);
    assert_eq!(cpu.registers.half_carry(), true);
    assert_eq!(cpu.registers.carry(), true);
  }

  #[test]
  fn test_sub_a_hl_mem_zero() {
    let mut cpu = create_cpu(vec![0x96]);
    cpu.registers.set(Register::A, 0x05);
    cpu.registers.set(Register::HL, 0xF234);
    cpu.memory_bus.write(0xF234, 0x05);

    let result = cpu.execute_instruction();

    assert_eq!(cpu.registers.get(Register::A), 0x00);
    assert_eq!(cpu.registers.get(Register::PC), INITIAL_PC + 1);

    assert_eq!(result.cycles, 8);
    assert_eq!(cpu.registers.zero(), true);
    assert_eq!(cpu.registers.subtract(), true);
    assert_eq!(cpu.registers.half_carry(), false);
    assert_eq!(cpu.registers.carry(), false);
  }

  #[test]
  fn test_sub_a_n8_no_carry() {
    let mut cpu = create_cpu(vec![0xD6, 0x05]);
    cpu.registers.set(Register::A, 0x35);

    let result = cpu.execute_instruction();

    assert_eq!(cpu.registers.get(Register::A), 0x30);
    assert_eq!(cpu.registers.get(Register::PC), INITIAL_PC + 2);

    assert_eq!(result.cycles, 8);
    assert_eq!(cpu.registers.zero(), false);
    assert_eq!(cpu.registers.subtract(), true);
    assert_eq!(cpu.registers.half_carry(), false);
    assert_eq!(cpu.registers.carry(), false);
  }

  #[test]
  fn test_sub_a_n8_half_carry() {
    let mut cpu = create_cpu(vec![0xD6, 0x05]);
    cpu.registers.set(Register::A, 0x30);

    let result = cpu.execute_instruction();

    assert_eq!(cpu.registers.get(Register::A), 0x2B);
    assert_eq!(cpu.registers.get(Register::PC), INITIAL_PC + 2);

    assert_eq!(result.cycles, 8);
    assert_eq!(cpu.registers.zero(), false);
    assert_eq!(cpu.registers.subtract(), true);
    assert_eq!(cpu.registers.half_carry(), true);
    assert_eq!(cpu.registers.carry(), false);
  }

  #[test]
  fn test_sub_a_n8_carry() {
    let mut cpu = create_cpu(vec![0xD6, 0x0A]);
    cpu.registers.set(Register::A, 0x05);

    let result = cpu.execute_instruction();

    assert_eq!(cpu.registers.get(Register::A), 0xFB);
    assert_eq!(cpu.registers.get(Register::PC), INITIAL_PC + 2);

    assert_eq!(result.cycles, 8);
    assert_eq!(cpu.registers.zero(), false);
    assert_eq!(cpu.registers.subtract(), true);
    assert_eq!(cpu.registers.half_carry(), true);
    assert_eq!(cpu.registers.carry(), true);
  }

  #[test]
  fn test_sub_a_n8_zero() {
    let mut cpu = create_cpu(vec![0xD6, 0x05]);
    cpu.registers.set(Register::A, 0x05);

    let result = cpu.execute_instruction();

    assert_eq!(cpu.registers.get(Register::A), 0x00);
    assert_eq!(cpu.registers.get(Register::PC), INITIAL_PC + 2);

    assert_eq!(result.cycles, 8);
    assert_eq!(cpu.registers.zero(), true);
    assert_eq!(cpu.registers.subtract(), true);
    assert_eq!(cpu.registers.half_carry(), false);
    assert_eq!(cpu.registers.carry(), false);
  }

  #[test]
  fn test_cp_a_r8_no_carry() {
    let mut cpu = create_cpu(vec![0xB8]);
    cpu.registers.set(Register::A, 0x35);
    cpu.registers.set(Register::B, 0x05);

    let result = cpu.execute_instruction();

    assert_eq!(cpu.registers.get(Register::A), 0x35);
    assert_eq!(cpu.registers.get(Register::PC), INITIAL_PC + 1);

    assert_eq!(result.cycles, 4);
    assert_eq!(cpu.registers.zero(), false);
    assert_eq!(cpu.registers.subtract(), true);
    assert_eq!(cpu.registers.half_carry(), false);
    assert_eq!(cpu.registers.carry(), false);
  }

  #[test]
  fn test_cp_a_r8_half_carry() {
    let mut cpu = create_cpu(vec![0xB8]);
    cpu.registers.set(Register::A, 0x30);
    cpu.registers.set(Register::B, 0x05);

    let result = cpu.execute_instruction();

    assert_eq!(cpu.registers.get(Register::A), 0x30);
    assert_eq!(cpu.registers.get(Register::PC), INITIAL_PC + 1);

    assert_eq!(result.cycles, 4);
    assert_eq!(cpu.registers.zero(), false);
    assert_eq!(cpu.registers.subtract(), true);
    assert_eq!(cpu.registers.half_carry(), true);
    assert_eq!(cpu.registers.carry(), false);
  }

  #[test]
  fn test_cp_a_r8_carry() {
    let mut cpu = create_cpu(vec![0xB8]);
    cpu.registers.set(Register::A, 0x05);
    cpu.registers.set(Register::B, 0x0A);

    let result = cpu.execute_instruction();

    assert_eq!(cpu.registers.get(Register::A), 0x05);
    assert_eq!(cpu.registers.get(Register::PC), INITIAL_PC + 1);

    assert_eq!(result.cycles, 4);
    assert_eq!(cpu.registers.zero(), false);
    assert_eq!(cpu.registers.subtract(), true);
    assert_eq!(cpu.registers.half_carry(), true);
    assert_eq!(cpu.registers.carry(), true);
  }

  #[test]
  fn test_cp_a_r8_zero() {
    let mut cpu = create_cpu(vec![0xB8]);
    cpu.registers.set(Register::A, 0x05);
    cpu.registers.set(Register::B, 0x05);

    let result = cpu.execute_instruction();

    assert_eq!(cpu.registers.get(Register::A), 0x05);
    assert_eq!(cpu.registers.get(Register::PC), INITIAL_PC + 1);

    assert_eq!(result.cycles, 4);
    assert_eq!(cpu.registers.zero(), true);
    assert_eq!(cpu.registers.subtract(), true);
    assert_eq!(cpu.registers.half_carry(), false);
    assert_eq!(cpu.registers.carry(), false);
  }

  #[test]
  fn test_cp_a_hl_mem_no_carry() {
    let mut cpu = create_cpu(vec![0xBE]);
    cpu.registers.set(Register::A, 0x35);
    cpu.registers.set(Register::HL, 0xF234);
    cpu.memory_bus.write(0xF234, 0x05);

    let result = cpu.execute_instruction();

    assert_eq!(cpu.registers.get(Register::A), 0x35);
    assert_eq!(cpu.registers.get(Register::PC), INITIAL_PC + 1);

    assert_eq!(result.cycles, 8);
    assert_eq!(cpu.registers.zero(), false);
    assert_eq!(cpu.registers.subtract(), true);
    assert_eq!(cpu.registers.half_carry(), false);
    assert_eq!(cpu.registers.carry(), false);
  }

  #[test]
  fn test_cp_a_hl_mem_half_carry() {
    let mut cpu = create_cpu(vec![0xBE]);
    cpu.registers.set(Register::A, 0x30);
    cpu.registers.set(Register::HL, 0xF234);
    cpu.memory_bus.write(0xF234, 0x05);

    let result = cpu.execute_instruction();

    assert_eq!(cpu.registers.get(Register::A), 0x30);
    assert_eq!(cpu.registers.get(Register::PC), INITIAL_PC + 1);

    assert_eq!(result.cycles, 8);
    assert_eq!(cpu.registers.zero(), false);
    assert_eq!(cpu.registers.subtract(), true);
    assert_eq!(cpu.registers.half_carry(), true);
    assert_eq!(cpu.registers.carry(), false);
  }

  #[test]
  fn test_cp_a_hl_mem_carry() {
    let mut cpu = create_cpu(vec![0xBE]);
    cpu.registers.set(Register::A, 0x05);
    cpu.registers.set(Register::HL, 0xF234);
    cpu.memory_bus.write(0xF234, 0x0A);

    let result = cpu.execute_instruction();

    assert_eq!(cpu.registers.get(Register::A), 0x05);
    assert_eq!(cpu.registers.get(Register::PC), INITIAL_PC + 1);

    assert_eq!(result.cycles, 8);
    assert_eq!(cpu.registers.zero(), false);
    assert_eq!(cpu.registers.subtract(), true);
    assert_eq!(cpu.registers.half_carry(), true);
    assert_eq!(cpu.registers.carry(), true);
  }

  #[test]
  fn test_cp_a_hl_mem_zero() {
    let mut cpu = create_cpu(vec![0xBE]);
    cpu.registers.set(Register::A, 0x05);
    cpu.registers.set(Register::HL, 0xF234);
    cpu.memory_bus.write(0xF234, 0x05);

    let result = cpu.execute_instruction();

    assert_eq!(cpu.registers.get(Register::A), 0x05);
    assert_eq!(cpu.registers.get(Register::PC), INITIAL_PC + 1);

    assert_eq!(result.cycles, 8);
    assert_eq!(cpu.registers.zero(), true);
    assert_eq!(cpu.registers.subtract(), true);
    assert_eq!(cpu.registers.half_carry(), false);
    assert_eq!(cpu.registers.carry(), false);
  }

  #[test]
  fn test_cp_a_n8_no_carry() {
    let mut cpu = create_cpu(vec![0xFE, 0x05]);
    cpu.registers.set(Register::A, 0x35);

    let result = cpu.execute_instruction();

    assert_eq!(cpu.registers.get(Register::A), 0x35);
    assert_eq!(cpu.registers.get(Register::PC), INITIAL_PC + 2);

    assert_eq!(result.cycles, 8);
    assert_eq!(cpu.registers.zero(), false);
    assert_eq!(cpu.registers.subtract(), true);
    assert_eq!(cpu.registers.half_carry(), false);
    assert_eq!(cpu.registers.carry(), false);
  }

  #[test]
  fn test_cp_a_n8_half_carry() {
    let mut cpu = create_cpu(vec![0xFE, 0x05]);
    cpu.registers.set(Register::A, 0x30);

    let result = cpu.execute_instruction();

    assert_eq!(cpu.registers.get(Register::A), 0x30);
    assert_eq!(cpu.registers.get(Register::PC), INITIAL_PC + 2);

    assert_eq!(result.cycles, 8);
    assert_eq!(cpu.registers.zero(), false);
    assert_eq!(cpu.registers.subtract(), true);
    assert_eq!(cpu.registers.half_carry(), true);
    assert_eq!(cpu.registers.carry(), false);
  }

  #[test]
  fn test_cp_a_n8_carry() {
    let mut cpu = create_cpu(vec![0xFE, 0x0A]);
    cpu.registers.set(Register::A, 0x05);

    let result = cpu.execute_instruction();

    assert_eq!(cpu.registers.get(Register::A), 0x05);
    assert_eq!(cpu.registers.get(Register::PC), INITIAL_PC + 2);

    assert_eq!(result.cycles, 8);
    assert_eq!(cpu.registers.zero(), false);
    assert_eq!(cpu.registers.subtract(), true);
    assert_eq!(cpu.registers.half_carry(), true);
    assert_eq!(cpu.registers.carry(), true);
  }

  #[test]
  fn test_cp_a_n8_zero() {
    let mut cpu = create_cpu(vec![0xFE, 0x05]);
    cpu.registers.set(Register::A, 0x05);

    let result = cpu.execute_instruction();

    assert_eq!(cpu.registers.get(Register::A), 0x05);
    assert_eq!(cpu.registers.get(Register::PC), INITIAL_PC + 2);

    assert_eq!(result.cycles, 8);
    assert_eq!(cpu.registers.zero(), true);
    assert_eq!(cpu.registers.subtract(), true);
    assert_eq!(cpu.registers.half_carry(), false);
    assert_eq!(cpu.registers.carry(), false);
  }

  #[test]
  fn test_and_a_r8_non_zero() {
    let mut cpu = create_cpu(vec![0xA0]);
    cpu.registers.set(Register::A, 0x35);
    cpu.registers.set(Register::B, 0x05);

    let result = cpu.execute_instruction();

    assert_eq!(cpu.registers.get(Register::A), 0x05);
    assert_eq!(cpu.registers.get(Register::PC), INITIAL_PC + 1);

    assert_eq!(result.cycles, 4);
    assert_eq!(cpu.registers.zero(), false);
    assert_eq!(cpu.registers.subtract(), false);
    assert_eq!(cpu.registers.half_carry(), true);
    assert_eq!(cpu.registers.carry(), false);
  }

  #[test]
  fn test_and_a_r8_zero() {
    let mut cpu = create_cpu(vec![0xA0]);
    cpu.registers.set(Register::A, 0x30);
    cpu.registers.set(Register::B, 0x05);

    let result = cpu.execute_instruction();

    assert_eq!(cpu.registers.get(Register::A), 0x00);
    assert_eq!(cpu.registers.get(Register::PC), INITIAL_PC + 1);

    assert_eq!(result.cycles, 4);
    assert_eq!(cpu.registers.zero(), true);
    assert_eq!(cpu.registers.subtract(), false);
    assert_eq!(cpu.registers.half_carry(), true);
    assert_eq!(cpu.registers.carry(), false);
  }

  #[test]
  fn test_and_a_hl_mem_non_zero() {
    let mut cpu = create_cpu(vec![0xA6]);
    cpu.registers.set(Register::A, 0x35);
    cpu.registers.set(Register::HL, 0xF234);
    cpu.memory_bus.write(0xF234, 0x05);

    let result = cpu.execute_instruction();

    assert_eq!(cpu.registers.get(Register::A), 0x05);
    assert_eq!(cpu.registers.get(Register::PC), INITIAL_PC + 1);

    assert_eq!(result.cycles, 8);
    assert_eq!(cpu.registers.zero(), false);
    assert_eq!(cpu.registers.subtract(), false);
    assert_eq!(cpu.registers.half_carry(), true);
    assert_eq!(cpu.registers.carry(), false);
  }

  #[test]
  fn test_and_a_hl_mem_zero() {
    let mut cpu = create_cpu(vec![0xA6]);
    cpu.registers.set(Register::A, 0x30);
    cpu.registers.set(Register::HL, 0xF234);
    cpu.memory_bus.write(0xF234, 0x05);

    let result = cpu.execute_instruction();

    assert_eq!(cpu.registers.get(Register::A), 0x00);
    assert_eq!(cpu.registers.get(Register::PC), INITIAL_PC + 1);

    assert_eq!(result.cycles, 8);
    assert_eq!(cpu.registers.zero(), true);
    assert_eq!(cpu.registers.subtract(), false);
    assert_eq!(cpu.registers.half_carry(), true);
    assert_eq!(cpu.registers.carry(), false);
  }

  #[test]
  fn test_and_a_n8_non_zero() {
    let mut cpu = create_cpu(vec![0xE6, 0x05]);
    cpu.registers.set(Register::A, 0x35);

    let result = cpu.execute_instruction();

    assert_eq!(cpu.registers.get(Register::A), 0x05);
    assert_eq!(cpu.registers.get(Register::PC), INITIAL_PC + 2);

    assert_eq!(result.cycles, 8);
    assert_eq!(cpu.registers.zero(), false);
    assert_eq!(cpu.registers.subtract(), false);
    assert_eq!(cpu.registers.half_carry(), true);
    assert_eq!(cpu.registers.carry(), false);
  }

  #[test]
  fn test_and_a_n8_zero() {
    let mut cpu = create_cpu(vec![0xE6, 0x05]);
    cpu.registers.set(Register::A, 0x30);

    let result = cpu.execute_instruction();

    assert_eq!(cpu.registers.get(Register::A), 0x00);
    assert_eq!(cpu.registers.get(Register::PC), INITIAL_PC + 2);

    assert_eq!(result.cycles, 8);
    assert_eq!(cpu.registers.zero(), true);
    assert_eq!(cpu.registers.subtract(), false);
    assert_eq!(cpu.registers.half_carry(), true);
    assert_eq!(cpu.registers.carry(), false);
  }

  #[test]
  fn test_xor_a_r8_non_zero() {
    let mut cpu = create_cpu(vec![0xA8]);
    cpu.registers.set(Register::A, 0x35);
    cpu.registers.set(Register::B, 0x05);

    let result = cpu.execute_instruction();

    assert_eq!(cpu.registers.get(Register::A), 0x30);
    assert_eq!(cpu.registers.get(Register::PC), INITIAL_PC + 1);

    assert_eq!(result.cycles, 4);
    assert_eq!(cpu.registers.zero(), false);
    assert_eq!(cpu.registers.subtract(), false);
    assert_eq!(cpu.registers.half_carry(), false);
    assert_eq!(cpu.registers.carry(), false);
  }

  #[test]
  fn test_xor_a_r8_zero() {
    let mut cpu = create_cpu(vec![0xA8]);
    cpu.registers.set(Register::A, 0x30);
    cpu.registers.set(Register::B, 0x30);

    let result = cpu.execute_instruction();

    assert_eq!(cpu.registers.get(Register::A), 0x00);
    assert_eq!(cpu.registers.get(Register::PC), INITIAL_PC + 1);

    assert_eq!(result.cycles, 4);
    assert_eq!(cpu.registers.zero(), true);
    assert_eq!(cpu.registers.subtract(), false);
    assert_eq!(cpu.registers.half_carry(), false);
    assert_eq!(cpu.registers.carry(), false);
  }

  #[test]
  fn test_xor_a_hl_mem_non_zero() {
    let mut cpu = create_cpu(vec![0xAE]);
    cpu.registers.set(Register::A, 0x35);
    cpu.registers.set(Register::HL, 0xF234);
    cpu.memory_bus.write(0xF234, 0x05);

    let result = cpu.execute_instruction();

    assert_eq!(cpu.registers.get(Register::A), 0x30);
    assert_eq!(cpu.registers.get(Register::PC), INITIAL_PC + 1);

    assert_eq!(result.cycles, 8);
    assert_eq!(cpu.registers.zero(), false);
    assert_eq!(cpu.registers.subtract(), false);
    assert_eq!(cpu.registers.half_carry(), false);
    assert_eq!(cpu.registers.carry(), false);
  }

  #[test]
  fn test_xor_a_hl_mem_zero() {
    let mut cpu = create_cpu(vec![0xAE]);
    cpu.registers.set(Register::A, 0x30);
    cpu.registers.set(Register::HL, 0xF234);
    cpu.memory_bus.write(0xF234, 0x30);

    let result = cpu.execute_instruction();

    assert_eq!(cpu.registers.get(Register::A), 0x00);
    assert_eq!(cpu.registers.get(Register::PC), INITIAL_PC + 1);

    assert_eq!(result.cycles, 8);
    assert_eq!(cpu.registers.zero(), true);
    assert_eq!(cpu.registers.subtract(), false);
    assert_eq!(cpu.registers.half_carry(), false);
    assert_eq!(cpu.registers.carry(), false);
  }

  #[test]
  fn test_xor_a_n8_non_zero() {
    let mut cpu = create_cpu(vec![0xEE, 0x05]);
    cpu.registers.set(Register::A, 0x35);

    let result = cpu.execute_instruction();

    assert_eq!(cpu.registers.get(Register::A), 0x30);
    assert_eq!(cpu.registers.get(Register::PC), INITIAL_PC + 2);

    assert_eq!(result.cycles, 8);
    assert_eq!(cpu.registers.zero(), false);
    assert_eq!(cpu.registers.subtract(), false);
    assert_eq!(cpu.registers.half_carry(), false);
    assert_eq!(cpu.registers.carry(), false);
  }

  #[test]
  fn test_xor_a_n8_zero() {
    let mut cpu = create_cpu(vec![0xEE, 0x30]);
    cpu.registers.set(Register::A, 0x30);

    let result = cpu.execute_instruction();

    assert_eq!(cpu.registers.get(Register::A), 0x00);
    assert_eq!(cpu.registers.get(Register::PC), INITIAL_PC + 2);

    assert_eq!(result.cycles, 8);
    assert_eq!(cpu.registers.zero(), true);
    assert_eq!(cpu.registers.subtract(), false);
    assert_eq!(cpu.registers.half_carry(), false);
    assert_eq!(cpu.registers.carry(), false);
  }

  #[test]
  fn test_srl_r8_no_carry() {
    let mut cpu = create_cpu(vec![0xCB, 0x38]);
    cpu.registers.set(Register::B, 0x82);

    let result = cpu.execute_instruction();

    assert_eq!(cpu.registers.get(Register::B), 0x41);
    assert_eq!(cpu.registers.get(Register::PC), INITIAL_PC + 2);

    assert_eq!(result.cycles, 8);
    assert_eq!(cpu.registers.zero(), false);
    assert_eq!(cpu.registers.subtract(), false);
    assert_eq!(cpu.registers.half_carry(), false);
    assert_eq!(cpu.registers.carry(), false);
  }

  #[test]
  fn test_srl_r8_carry() {
    let mut cpu = create_cpu(vec![0xCB, 0x38]);
    cpu.registers.set(Register::B, 0x83);

    let result = cpu.execute_instruction();

    assert_eq!(cpu.registers.get(Register::B), 0x41);
    assert_eq!(cpu.registers.get(Register::PC), INITIAL_PC + 2);

    assert_eq!(result.cycles, 8);
    assert_eq!(cpu.registers.zero(), false);
    assert_eq!(cpu.registers.subtract(), false);
    assert_eq!(cpu.registers.half_carry(), false);
    assert_eq!(cpu.registers.carry(), true);
  }

  #[test]
  fn test_srl_r8_zero() {
    let mut cpu = create_cpu(vec![0xCB, 0x38]);
    cpu.registers.set(Register::B, 0x01);

    let result = cpu.execute_instruction();

    assert_eq!(cpu.registers.get(Register::B), 0x00);
    assert_eq!(cpu.registers.get(Register::PC), INITIAL_PC + 2);

    assert_eq!(result.cycles, 8);
    assert_eq!(cpu.registers.zero(), true);
    assert_eq!(cpu.registers.subtract(), false);
    assert_eq!(cpu.registers.half_carry(), false);
    assert_eq!(cpu.registers.carry(), true);
  }

  #[test]
  fn test_srl_hl_mem_no_carry() {
    let mut cpu = create_cpu(vec![0xCB, 0x3E]);
    cpu.registers.set(Register::HL, 0xF234);
    cpu.memory_bus.write(0xF234, 0x82);

    let result = cpu.execute_instruction();

    assert_eq!(cpu.memory_bus.read(0xF234), 0x41);
    assert_eq!(cpu.registers.get(Register::PC), INITIAL_PC + 2);

    assert_eq!(result.cycles, 16);
    assert_eq!(cpu.registers.zero(), false);
    assert_eq!(cpu.registers.subtract(), false);
    assert_eq!(cpu.registers.half_carry(), false);
    assert_eq!(cpu.registers.carry(), false);
  }

  #[test]
  fn test_srl_hl_mem_carry() {
    let mut cpu = create_cpu(vec![0xCB, 0x3E]);
    cpu.registers.set(Register::HL, 0xF234);
    cpu.memory_bus.write(0xF234, 0x83);

    let result = cpu.execute_instruction();

    assert_eq!(cpu.memory_bus.read(0xF234), 0x41);
    assert_eq!(cpu.registers.get(Register::PC), INITIAL_PC + 2);

    assert_eq!(result.cycles, 16);
    assert_eq!(cpu.registers.zero(), false);
    assert_eq!(cpu.registers.subtract(), false);
    assert_eq!(cpu.registers.half_carry(), false);
    assert_eq!(cpu.registers.carry(), true);
  }

  #[test]
  fn test_srl_hl_mem_zero() {
    let mut cpu = create_cpu(vec![0xCB, 0x3E]);
    cpu.registers.set(Register::HL, 0xF234);
    cpu.memory_bus.write(0xF234, 0x01);

    let result = cpu.execute_instruction();

    assert_eq!(cpu.memory_bus.read(0xF234), 0x00);
    assert_eq!(cpu.registers.get(Register::PC), INITIAL_PC + 2);

    assert_eq!(result.cycles, 16);
    assert_eq!(cpu.registers.zero(), true);
    assert_eq!(cpu.registers.subtract(), false);
    assert_eq!(cpu.registers.half_carry(), false);
    assert_eq!(cpu.registers.carry(), true);
  }

  #[test]
  fn test_sra_r8_no_carry() {
    let mut cpu = create_cpu(vec![0xCB, 0x28]);
    cpu.registers.set(Register::B, 0x82);

    let result = cpu.execute_instruction();

    assert_eq!(cpu.registers.get(Register::B), 0xC1);
    assert_eq!(cpu.registers.get(Register::PC), INITIAL_PC + 2);

    assert_eq!(result.cycles, 8);
    assert_eq!(cpu.registers.zero(), false);
    assert_eq!(cpu.registers.subtract(), false);
    assert_eq!(cpu.registers.half_carry(), false);
    assert_eq!(cpu.registers.carry(), false);
  }

  #[test]
  fn test_sra_r8_carry() {
    let mut cpu = create_cpu(vec![0xCB, 0x28]);
    cpu.registers.set(Register::B, 0x83);

    let result = cpu.execute_instruction();

    assert_eq!(cpu.registers.get(Register::B), 0xC1);
    assert_eq!(cpu.registers.get(Register::PC), INITIAL_PC + 2);

    assert_eq!(result.cycles, 8);
    assert_eq!(cpu.registers.zero(), false);
    assert_eq!(cpu.registers.subtract(), false);
    assert_eq!(cpu.registers.half_carry(), false);
    assert_eq!(cpu.registers.carry(), true);
  }

  #[test]
  fn test_sra_r8_zero() {
    let mut cpu = create_cpu(vec![0xCB, 0x28]);
    cpu.registers.set(Register::B, 0x01);

    let result = cpu.execute_instruction();

    assert_eq!(cpu.registers.get(Register::B), 0x00);
    assert_eq!(cpu.registers.get(Register::PC), INITIAL_PC + 2);

    assert_eq!(result.cycles, 8);
    assert_eq!(cpu.registers.zero(), true);
    assert_eq!(cpu.registers.subtract(), false);
    assert_eq!(cpu.registers.half_carry(), false);
    assert_eq!(cpu.registers.carry(), true);
  }

  #[test]
  fn test_sra_hl_mem_no_carry() {
    let mut cpu = create_cpu(vec![0xCB, 0x2E]);
    cpu.registers.set(Register::HL, 0xF234);
    cpu.memory_bus.write(0xF234, 0x82);

    let result = cpu.execute_instruction();

    assert_eq!(cpu.memory_bus.read(0xF234), 0xC1);
    assert_eq!(cpu.registers.get(Register::PC), INITIAL_PC + 2);

    assert_eq!(result.cycles, 16);
    assert_eq!(cpu.registers.zero(), false);
    assert_eq!(cpu.registers.subtract(), false);
    assert_eq!(cpu.registers.half_carry(), false);
    assert_eq!(cpu.registers.carry(), false);
  }

  #[test]
  fn test_sra_hl_mem_carry() {
    let mut cpu = create_cpu(vec![0xCB, 0x2E]);
    cpu.registers.set(Register::HL, 0xF234);
    cpu.memory_bus.write(0xF234, 0x83);

    let result = cpu.execute_instruction();

    assert_eq!(cpu.memory_bus.read(0xF234), 0xC1);
    assert_eq!(cpu.registers.get(Register::PC), INITIAL_PC + 2);

    assert_eq!(result.cycles, 16);
    assert_eq!(cpu.registers.zero(), false);
    assert_eq!(cpu.registers.subtract(), false);
    assert_eq!(cpu.registers.half_carry(), false);
    assert_eq!(cpu.registers.carry(), true);
  }

  #[test]
  fn test_sra_hl_mem_zero() {
    let mut cpu = create_cpu(vec![0xCB, 0x2E]);
    cpu.registers.set(Register::HL, 0xF234);
    cpu.memory_bus.write(0xF234, 0x01);

    let result = cpu.execute_instruction();

    assert_eq!(cpu.memory_bus.read(0xF234), 0x00);
    assert_eq!(cpu.registers.get(Register::PC), INITIAL_PC + 2);

    assert_eq!(result.cycles, 16);
    assert_eq!(cpu.registers.zero(), true);
    assert_eq!(cpu.registers.subtract(), false);
    assert_eq!(cpu.registers.half_carry(), false);
    assert_eq!(cpu.registers.carry(), true);
  }

  #[test]
  fn test_sla_r8_no_carry() {
    let mut cpu = create_cpu(vec![0xCB, 0x20]);
    cpu.registers.set(Register::B, 0x03);

    let result = cpu.execute_instruction();

    assert_eq!(cpu.registers.get(Register::B), 0x06);
    assert_eq!(cpu.registers.get(Register::PC), INITIAL_PC + 2);

    assert_eq!(result.cycles, 8);
    assert_eq!(cpu.registers.zero(), false);
    assert_eq!(cpu.registers.subtract(), false);
    assert_eq!(cpu.registers.half_carry(), false);
    assert_eq!(cpu.registers.carry(), false);
  }

  #[test]
  fn test_sla_r8_carry() {
    let mut cpu = create_cpu(vec![0xCB, 0x20]);
    cpu.registers.set(Register::B, 0x83);

    let result = cpu.execute_instruction();

    assert_eq!(cpu.registers.get(Register::B), 0x06);
    assert_eq!(cpu.registers.get(Register::PC), INITIAL_PC + 2);

    assert_eq!(result.cycles, 8);
    assert_eq!(cpu.registers.zero(), false);
    assert_eq!(cpu.registers.subtract(), false);
    assert_eq!(cpu.registers.half_carry(), false);
    assert_eq!(cpu.registers.carry(), true);
  }

  #[test]
  fn test_sla_r8_zero() {
    let mut cpu = create_cpu(vec![0xCB, 0x20]);
    cpu.registers.set(Register::B, 0x80);

    let result = cpu.execute_instruction();

    assert_eq!(cpu.registers.get(Register::B), 0x00);
    assert_eq!(cpu.registers.get(Register::PC), INITIAL_PC + 2);

    assert_eq!(result.cycles, 8);
    assert_eq!(cpu.registers.zero(), true);
    assert_eq!(cpu.registers.subtract(), false);
    assert_eq!(cpu.registers.half_carry(), false);
    assert_eq!(cpu.registers.carry(), true);
  }

  #[test]
  fn test_sla_hl_mem_no_carry() {
    let mut cpu = create_cpu(vec![0xCB, 0x26]);
    cpu.registers.set(Register::HL, 0xF234);
    cpu.memory_bus.write(0xF234, 0x03);

    let result = cpu.execute_instruction();

    assert_eq!(cpu.memory_bus.read(0xF234), 0x06);
    assert_eq!(cpu.registers.get(Register::PC), INITIAL_PC + 2);

    assert_eq!(result.cycles, 16);
    assert_eq!(cpu.registers.zero(), false);
    assert_eq!(cpu.registers.subtract(), false);
    assert_eq!(cpu.registers.half_carry(), false);
    assert_eq!(cpu.registers.carry(), false);
  }

  #[test]
  fn test_sla_hl_mem_carry() {
    let mut cpu = create_cpu(vec![0xCB, 0x26]);
    cpu.registers.set(Register::HL, 0xF234);
    cpu.memory_bus.write(0xF234, 0x83);

    let result = cpu.execute_instruction();

    assert_eq!(cpu.memory_bus.read(0xF234), 0x06);
    assert_eq!(cpu.registers.get(Register::PC), INITIAL_PC + 2);

    assert_eq!(result.cycles, 16);
    assert_eq!(cpu.registers.zero(), false);
    assert_eq!(cpu.registers.subtract(), false);
    assert_eq!(cpu.registers.half_carry(), false);
    assert_eq!(cpu.registers.carry(), true);
  }

  #[test]
  fn test_sla_hl_mem_zero() {
    let mut cpu = create_cpu(vec![0xCB, 0x26]);
    cpu.registers.set(Register::HL, 0xF234);
    cpu.memory_bus.write(0xF234, 0x80);

    let result = cpu.execute_instruction();

    assert_eq!(cpu.memory_bus.read(0xF234), 0x00);
    assert_eq!(cpu.registers.get(Register::PC), INITIAL_PC + 2);

    assert_eq!(result.cycles, 16);
    assert_eq!(cpu.registers.zero(), true);
    assert_eq!(cpu.registers.subtract(), false);
    assert_eq!(cpu.registers.half_carry(), false);
    assert_eq!(cpu.registers.carry(), true);
  }

  #[test]
  fn test_rrc_r8_no_carry() {
    let mut cpu = create_cpu(vec![0xCB, 0x08]);
    cpu.registers.set(Register::B, 0x06);

    let result = cpu.execute_instruction();

    assert_eq!(cpu.registers.get(Register::B), 0x03);
    assert_eq!(cpu.registers.get(Register::PC), INITIAL_PC + 2);

    assert_eq!(result.cycles, 8);
    assert_eq!(cpu.registers.zero(), false);
    assert_eq!(cpu.registers.subtract(), false);
    assert_eq!(cpu.registers.half_carry(), false);
    assert_eq!(cpu.registers.carry(), false);
  }

  #[test]
  fn test_rrc_r8_carry() {
    let mut cpu = create_cpu(vec![0xCB, 0x08]);
    cpu.registers.set(Register::B, 0x03);

    let result = cpu.execute_instruction();

    assert_eq!(cpu.registers.get(Register::B), 0x81);
    assert_eq!(cpu.registers.get(Register::PC), INITIAL_PC + 2);

    assert_eq!(result.cycles, 8);
    assert_eq!(cpu.registers.zero(), false);
    assert_eq!(cpu.registers.subtract(), false);
    assert_eq!(cpu.registers.half_carry(), false);
    assert_eq!(cpu.registers.carry(), true);
  }

  #[test]
  fn test_rrc_r8_zero() {
    let mut cpu = create_cpu(vec![0xCB, 0x08]);
    cpu.registers.set(Register::B, 0x00);

    let result = cpu.execute_instruction();

    assert_eq!(cpu.registers.get(Register::B), 0x00);
    assert_eq!(cpu.registers.get(Register::PC), INITIAL_PC + 2);

    assert_eq!(result.cycles, 8);
    assert_eq!(cpu.registers.zero(), true);
    assert_eq!(cpu.registers.subtract(), false);
    assert_eq!(cpu.registers.half_carry(), false);
    assert_eq!(cpu.registers.carry(), false);
  }

  #[test]
  fn test_rrc_hl_mem_no_carry() {
    let mut cpu = create_cpu(vec![0xCB, 0x0E]);
    cpu.registers.set(Register::HL, 0xF234);
    cpu.memory_bus.write(0xF234, 0x06);

    let result = cpu.execute_instruction();

    assert_eq!(cpu.memory_bus.read(0xF234), 0x03);
    assert_eq!(cpu.registers.get(Register::PC), INITIAL_PC + 2);

    assert_eq!(result.cycles, 16);
    assert_eq!(cpu.registers.zero(), false);
    assert_eq!(cpu.registers.subtract(), false);
    assert_eq!(cpu.registers.half_carry(), false);
    assert_eq!(cpu.registers.carry(), false);
  }

  #[test]
  fn test_rrc_hl_mem_carry() {
    let mut cpu = create_cpu(vec![0xCB, 0x0E]);
    cpu.registers.set(Register::HL, 0xF234);
    cpu.memory_bus.write(0xF234, 0x03);

    let result = cpu.execute_instruction();

    assert_eq!(cpu.memory_bus.read(0xF234), 0x81);
    assert_eq!(cpu.registers.get(Register::PC), INITIAL_PC + 2);

    assert_eq!(result.cycles, 16);
    assert_eq!(cpu.registers.zero(), false);
    assert_eq!(cpu.registers.subtract(), false);
    assert_eq!(cpu.registers.half_carry(), false);
    assert_eq!(cpu.registers.carry(), true);
  }

  #[test]
  fn test_rrc_hl_mem_zero() {
    let mut cpu = create_cpu(vec![0xCB, 0x0E]);
    cpu.registers.set(Register::HL, 0xF234);
    cpu.memory_bus.write(0xF234, 0x00);

    let result = cpu.execute_instruction();

    assert_eq!(cpu.memory_bus.read(0xF234), 0x00);
    assert_eq!(cpu.registers.get(Register::PC), INITIAL_PC + 2);

    assert_eq!(result.cycles, 16);
    assert_eq!(cpu.registers.zero(), true);
    assert_eq!(cpu.registers.subtract(), false);
    assert_eq!(cpu.registers.half_carry(), false);
    assert_eq!(cpu.registers.carry(), false);
  }

  #[test]
  fn test_rrca_no_carry() {
    let mut cpu = create_cpu(vec![0x0F]);
    cpu.registers.set(Register::A, 0x06);

    let result = cpu.execute_instruction();

    assert_eq!(cpu.registers.get(Register::A), 0x03);
    assert_eq!(cpu.registers.get(Register::PC), INITIAL_PC + 1);

    assert_eq!(result.cycles, 4);
    assert_eq!(cpu.registers.zero(), false);
    assert_eq!(cpu.registers.subtract(), false);
    assert_eq!(cpu.registers.half_carry(), false);
    assert_eq!(cpu.registers.carry(), false);
  }

  #[test]
  fn test_rrca_carry() {
    let mut cpu = create_cpu(vec![0x0F]);
    cpu.registers.set(Register::A, 0x03);

    let result = cpu.execute_instruction();

    assert_eq!(cpu.registers.get(Register::A), 0x81);
    assert_eq!(cpu.registers.get(Register::PC), INITIAL_PC + 1);

    assert_eq!(result.cycles, 4);
    assert_eq!(cpu.registers.zero(), false);
    assert_eq!(cpu.registers.subtract(), false);
    assert_eq!(cpu.registers.half_carry(), false);
    assert_eq!(cpu.registers.carry(), true);
  }

  #[test]
  fn test_rrca_zero() {
    let mut cpu = create_cpu(vec![0x0F]);
    cpu.registers.set(Register::A, 0x00);

    let result = cpu.execute_instruction();

    assert_eq!(cpu.registers.get(Register::A), 0x00);
    assert_eq!(cpu.registers.get(Register::PC), INITIAL_PC + 1);

    assert_eq!(result.cycles, 4);
    assert_eq!(cpu.registers.zero(), false);
    assert_eq!(cpu.registers.subtract(), false);
    assert_eq!(cpu.registers.half_carry(), false);
    assert_eq!(cpu.registers.carry(), false);
  }

  #[test]
  fn test_rr_r8_no_carry() {
    let mut cpu = create_cpu(vec![0xCB, 0x18]);
    cpu.registers.set(Register::B, 0x06);
    cpu.registers.set_carry(true);

    let result = cpu.execute_instruction();

    assert_eq!(cpu.registers.get(Register::B), 0x83);
    assert_eq!(cpu.registers.get(Register::PC), INITIAL_PC + 2);

    assert_eq!(result.cycles, 8);
    assert_eq!(cpu.registers.zero(), false);
    assert_eq!(cpu.registers.subtract(), false);
    assert_eq!(cpu.registers.half_carry(), false);
    assert_eq!(cpu.registers.carry(), false);
  }

  #[test]
  fn test_rr_r8_carry() {
    let mut cpu = create_cpu(vec![0xCB, 0x18]);
    cpu.registers.set(Register::B, 0x03);
    cpu.registers.set_carry(false);

    let result = cpu.execute_instruction();

    assert_eq!(cpu.registers.get(Register::B), 0x01);
    assert_eq!(cpu.registers.get(Register::PC), INITIAL_PC + 2);

    assert_eq!(result.cycles, 8);
    assert_eq!(cpu.registers.zero(), false);
    assert_eq!(cpu.registers.subtract(), false);
    assert_eq!(cpu.registers.half_carry(), false);
    assert_eq!(cpu.registers.carry(), true);
  }

  #[test]
  fn test_rr_r8_zero() {
    let mut cpu = create_cpu(vec![0xCB, 0x18]);
    cpu.registers.set(Register::B, 0x01);
    cpu.registers.set_carry(false);

    let result = cpu.execute_instruction();

    assert_eq!(cpu.registers.get(Register::B), 0x00);
    assert_eq!(cpu.registers.get(Register::PC), INITIAL_PC + 2);

    assert_eq!(result.cycles, 8);
    assert_eq!(cpu.registers.zero(), true);
    assert_eq!(cpu.registers.subtract(), false);
    assert_eq!(cpu.registers.half_carry(), false);
    assert_eq!(cpu.registers.carry(), true);
  }

  #[test]
  fn test_rr_hl_mem_no_carry() {
    let mut cpu = create_cpu(vec![0xCB, 0x1E]);
    cpu.registers.set(Register::HL, 0xF234);
    cpu.memory_bus.write(0xF234, 0x06);
    cpu.registers.set_carry(true);

    let result = cpu.execute_instruction();

    assert_eq!(cpu.memory_bus.read(0xF234), 0x83);
    assert_eq!(cpu.registers.get(Register::PC), INITIAL_PC + 2);

    assert_eq!(result.cycles, 16);
    assert_eq!(cpu.registers.zero(), false);
    assert_eq!(cpu.registers.subtract(), false);
    assert_eq!(cpu.registers.half_carry(), false);
    assert_eq!(cpu.registers.carry(), false);
  }

  #[test]
  fn test_rr_hl_mem_carry() {
    let mut cpu = create_cpu(vec![0xCB, 0x1E]);
    cpu.registers.set(Register::HL, 0xF234);
    cpu.memory_bus.write(0xF234, 0x03);
    cpu.registers.set_carry(false);

    let result = cpu.execute_instruction();

    assert_eq!(cpu.memory_bus.read(0xF234), 0x01);
    assert_eq!(cpu.registers.get(Register::PC), INITIAL_PC + 2);

    assert_eq!(result.cycles, 16);
    assert_eq!(cpu.registers.zero(), false);
    assert_eq!(cpu.registers.subtract(), false);
    assert_eq!(cpu.registers.half_carry(), false);
    assert_eq!(cpu.registers.carry(), true);
  }

  #[test]
  fn test_rr_hl_mem_zero() {
    let mut cpu = create_cpu(vec![0xCB, 0x1E]);
    cpu.registers.set(Register::HL, 0xF234);
    cpu.memory_bus.write(0xF234, 0x01);
    cpu.registers.set_carry(false);

    let result = cpu.execute_instruction();

    assert_eq!(cpu.memory_bus.read(0xF234), 0x00);
    assert_eq!(cpu.registers.get(Register::PC), INITIAL_PC + 2);

    assert_eq!(result.cycles, 16);
    assert_eq!(cpu.registers.zero(), true);
    assert_eq!(cpu.registers.subtract(), false);
    assert_eq!(cpu.registers.half_carry(), false);
    assert_eq!(cpu.registers.carry(), true);
  }

  #[test]
  fn test_rra_no_carry() {
    let mut cpu = create_cpu(vec![0x1F]);
    cpu.registers.set(Register::A, 0x06);
    cpu.registers.set_carry(true);

    let result = cpu.execute_instruction();

    assert_eq!(cpu.registers.get(Register::A), 0x83);
    assert_eq!(cpu.registers.get(Register::PC), INITIAL_PC + 1);

    assert_eq!(result.cycles, 4);
    assert_eq!(cpu.registers.zero(), false);
    assert_eq!(cpu.registers.subtract(), false);
    assert_eq!(cpu.registers.half_carry(), false);
    assert_eq!(cpu.registers.carry(), false);
  }

  #[test]
  fn test_rra_carry() {
    let mut cpu = create_cpu(vec![0x1F]);
    cpu.registers.set(Register::A, 0x03);
    cpu.registers.set_carry(false);

    let result = cpu.execute_instruction();

    assert_eq!(cpu.registers.get(Register::A), 0x01);
    assert_eq!(cpu.registers.get(Register::PC), INITIAL_PC + 1);

    assert_eq!(result.cycles, 4);
    assert_eq!(cpu.registers.zero(), false);
    assert_eq!(cpu.registers.subtract(), false);
    assert_eq!(cpu.registers.half_carry(), false);
    assert_eq!(cpu.registers.carry(), true);
  }

  #[test]
  fn test_rra_zero() {
    let mut cpu = create_cpu(vec![0x1F]);
    cpu.registers.set(Register::A, 0x01);
    cpu.registers.set_carry(false);

    let result = cpu.execute_instruction();

    assert_eq!(cpu.registers.get(Register::A), 0x00);
    assert_eq!(cpu.registers.get(Register::PC), INITIAL_PC + 1);

    assert_eq!(result.cycles, 4);
    assert_eq!(cpu.registers.zero(), false);
    assert_eq!(cpu.registers.subtract(), false);
    assert_eq!(cpu.registers.half_carry(), false);
    assert_eq!(cpu.registers.carry(), true);
  }

  #[test]
  fn test_rl_r8_no_carry() {
    let mut cpu = create_cpu(vec![0xCB, 0x10]);
    cpu.registers.set(Register::B, 0x03);
    cpu.registers.set_carry(true);

    let result = cpu.execute_instruction();

    assert_eq!(cpu.registers.get(Register::B), 0x07);
    assert_eq!(cpu.registers.get(Register::PC), INITIAL_PC + 2);

    assert_eq!(result.cycles, 8);
    assert_eq!(cpu.registers.zero(), false);
    assert_eq!(cpu.registers.subtract(), false);
    assert_eq!(cpu.registers.half_carry(), false);
    assert_eq!(cpu.registers.carry(), false);
  }

  #[test]
  fn test_rl_r8_carry() {
    let mut cpu = create_cpu(vec![0xCB, 0x10]);
    cpu.registers.set(Register::B, 0x83);
    cpu.registers.set_carry(false);

    let result = cpu.execute_instruction();

    assert_eq!(cpu.registers.get(Register::B), 0x06);
    assert_eq!(cpu.registers.get(Register::PC), INITIAL_PC + 2);

    assert_eq!(result.cycles, 8);
    assert_eq!(cpu.registers.zero(), false);
    assert_eq!(cpu.registers.subtract(), false);
    assert_eq!(cpu.registers.half_carry(), false);
    assert_eq!(cpu.registers.carry(), true);
  }

  #[test]
  fn test_rl_r8_zero() {
    let mut cpu = create_cpu(vec![0xCB, 0x10]);
    cpu.registers.set(Register::B, 0x80);
    cpu.registers.set_carry(false);

    let result = cpu.execute_instruction();

    assert_eq!(cpu.registers.get(Register::B), 0x00);
    assert_eq!(cpu.registers.get(Register::PC), INITIAL_PC + 2);

    assert_eq!(result.cycles, 8);
    assert_eq!(cpu.registers.zero(), true);
    assert_eq!(cpu.registers.subtract(), false);
    assert_eq!(cpu.registers.half_carry(), false);
    assert_eq!(cpu.registers.carry(), true);
  }

  #[test]
  fn test_rl_hl_mem_no_carry() {
    let mut cpu = create_cpu(vec![0xCB, 0x16]);
    cpu.registers.set(Register::HL, 0xF234);
    cpu.memory_bus.write(0xF234, 0x03);
    cpu.registers.set_carry(true);

    let result = cpu.execute_instruction();

    assert_eq!(cpu.memory_bus.read(0xF234), 0x07);
    assert_eq!(cpu.registers.get(Register::PC), INITIAL_PC + 2);

    assert_eq!(result.cycles, 16);
    assert_eq!(cpu.registers.zero(), false);
    assert_eq!(cpu.registers.subtract(), false);
    assert_eq!(cpu.registers.half_carry(), false);
    assert_eq!(cpu.registers.carry(), false);
  }

  #[test]
  fn test_rl_hl_mem_carry() {
    let mut cpu = create_cpu(vec![0xCB, 0x16]);
    cpu.registers.set(Register::HL, 0xF234);
    cpu.memory_bus.write(0xF234, 0x83);
    cpu.registers.set_carry(false);

    let result = cpu.execute_instruction();

    assert_eq!(cpu.memory_bus.read(0xF234), 0x06);
    assert_eq!(cpu.registers.get(Register::PC), INITIAL_PC + 2);

    assert_eq!(result.cycles, 16);
    assert_eq!(cpu.registers.zero(), false);
    assert_eq!(cpu.registers.subtract(), false);
    assert_eq!(cpu.registers.half_carry(), false);
    assert_eq!(cpu.registers.carry(), true);
  }

  #[test]
  fn test_rl_hl_mem_zero() {
    let mut cpu = create_cpu(vec![0xCB, 0x16]);
    cpu.registers.set(Register::HL, 0xF234);
    cpu.memory_bus.write(0xF234, 0x80);
    cpu.registers.set_carry(false);

    let result = cpu.execute_instruction();

    assert_eq!(cpu.memory_bus.read(0xF234), 0x00);
    assert_eq!(cpu.registers.get(Register::PC), INITIAL_PC + 2);

    assert_eq!(result.cycles, 16);
    assert_eq!(cpu.registers.zero(), true);
    assert_eq!(cpu.registers.subtract(), false);
    assert_eq!(cpu.registers.half_carry(), false);
    assert_eq!(cpu.registers.carry(), true);
  }

  #[test]
  fn test_rla_no_carry() {
    let mut cpu = create_cpu(vec![0x17]);
    cpu.registers.set(Register::A, 0x03);
    cpu.registers.set_carry(true);

    let result = cpu.execute_instruction();

    assert_eq!(cpu.registers.get(Register::A), 0x07);
    assert_eq!(cpu.registers.get(Register::PC), INITIAL_PC + 1);

    assert_eq!(result.cycles, 4);
    assert_eq!(cpu.registers.zero(), false);
    assert_eq!(cpu.registers.subtract(), false);
    assert_eq!(cpu.registers.half_carry(), false);
    assert_eq!(cpu.registers.carry(), false);
  }

  #[test]
  fn test_rla_carry() {
    let mut cpu = create_cpu(vec![0x17]);
    cpu.registers.set(Register::A, 0x83);
    cpu.registers.set_carry(false);

    let result = cpu.execute_instruction();

    assert_eq!(cpu.registers.get(Register::A), 0x06);
    assert_eq!(cpu.registers.get(Register::PC), INITIAL_PC + 1);

    assert_eq!(result.cycles, 4);
    assert_eq!(cpu.registers.zero(), false);
    assert_eq!(cpu.registers.subtract(), false);
    assert_eq!(cpu.registers.half_carry(), false);
    assert_eq!(cpu.registers.carry(), true);
  }

  #[test]
  fn test_rla_zero() {
    let mut cpu = create_cpu(vec![0x17]);
    cpu.registers.set(Register::A, 0x80);
    cpu.registers.set_carry(false);

    let result = cpu.execute_instruction();

    assert_eq!(cpu.registers.get(Register::A), 0x00);
    assert_eq!(cpu.registers.get(Register::PC), INITIAL_PC + 1);

    assert_eq!(result.cycles, 4);
    assert_eq!(cpu.registers.zero(), false);
    assert_eq!(cpu.registers.subtract(), false);
    assert_eq!(cpu.registers.half_carry(), false);
    assert_eq!(cpu.registers.carry(), true);
  }

  #[test]
  fn test_rlc_r8_no_carry() {
    let mut cpu = create_cpu(vec![0xCB, 0x00]);
    cpu.registers.set(Register::B, 0x03);

    let result = cpu.execute_instruction();

    assert_eq!(cpu.registers.get(Register::B), 0x06);
    assert_eq!(cpu.registers.get(Register::PC), INITIAL_PC + 2);

    assert_eq!(result.cycles, 8);
    assert_eq!(cpu.registers.zero(), false);
    assert_eq!(cpu.registers.subtract(), false);
    assert_eq!(cpu.registers.half_carry(), false);
    assert_eq!(cpu.registers.carry(), false);
  }

  #[test]
  fn test_rlc_r8_carry() {
    let mut cpu = create_cpu(vec![0xCB, 0x00]);
    cpu.registers.set(Register::B, 0x83);

    let result = cpu.execute_instruction();

    assert_eq!(cpu.registers.get(Register::B), 0x07);
    assert_eq!(cpu.registers.get(Register::PC), INITIAL_PC + 2);

    assert_eq!(result.cycles, 8);
    assert_eq!(cpu.registers.zero(), false);
    assert_eq!(cpu.registers.subtract(), false);
    assert_eq!(cpu.registers.half_carry(), false);
    assert_eq!(cpu.registers.carry(), true);
  }

  #[test]
  fn test_rlc_r8_zero() {
    let mut cpu = create_cpu(vec![0xCB, 0x00]);
    cpu.registers.set(Register::B, 0x00);

    let result = cpu.execute_instruction();

    assert_eq!(cpu.registers.get(Register::B), 0x00);
    assert_eq!(cpu.registers.get(Register::PC), INITIAL_PC + 2);

    assert_eq!(result.cycles, 8);
    assert_eq!(cpu.registers.zero(), true);
    assert_eq!(cpu.registers.subtract(), false);
    assert_eq!(cpu.registers.half_carry(), false);
    assert_eq!(cpu.registers.carry(), false);
  }

  #[test]
  fn test_rlc_hl_mem_no_carry() {
    let mut cpu = create_cpu(vec![0xCB, 0x06]);
    cpu.registers.set(Register::HL, 0xF234);
    cpu.memory_bus.write(0xF234, 0x03);

    let result = cpu.execute_instruction();

    assert_eq!(cpu.memory_bus.read(0xF234), 0x06);
    assert_eq!(cpu.registers.get(Register::PC), INITIAL_PC + 2);

    assert_eq!(result.cycles, 16);
    assert_eq!(cpu.registers.zero(), false);
    assert_eq!(cpu.registers.subtract(), false);
    assert_eq!(cpu.registers.half_carry(), false);
    assert_eq!(cpu.registers.carry(), false);
  }

  #[test]
  fn test_rlc_hl_mem_carry() {
    let mut cpu = create_cpu(vec![0xCB, 0x06]);
    cpu.registers.set(Register::HL, 0xF234);
    cpu.memory_bus.write(0xF234, 0x83);

    let result = cpu.execute_instruction();

    assert_eq!(cpu.memory_bus.read(0xF234), 0x07);
    assert_eq!(cpu.registers.get(Register::PC), INITIAL_PC + 2);

    assert_eq!(result.cycles, 16);
    assert_eq!(cpu.registers.zero(), false);
    assert_eq!(cpu.registers.subtract(), false);
    assert_eq!(cpu.registers.half_carry(), false);
    assert_eq!(cpu.registers.carry(), true);
  }

  #[test]
  fn test_rlc_hl_mem_zero() {
    let mut cpu = create_cpu(vec![0xCB, 0x06]);
    cpu.registers.set(Register::HL, 0xF234);
    cpu.memory_bus.write(0xF234, 0x00);

    let result = cpu.execute_instruction();

    assert_eq!(cpu.memory_bus.read(0xF234), 0x00);
    assert_eq!(cpu.registers.get(Register::PC), INITIAL_PC + 2);

    assert_eq!(result.cycles, 16);
    assert_eq!(cpu.registers.zero(), true);
    assert_eq!(cpu.registers.subtract(), false);
    assert_eq!(cpu.registers.half_carry(), false);
    assert_eq!(cpu.registers.carry(), false);
  }

  #[test]
  fn test_rlca_no_carry() {
    let mut cpu = create_cpu(vec![0x07]);
    cpu.registers.set(Register::A, 0x03);

    let result = cpu.execute_instruction();

    assert_eq!(cpu.registers.get(Register::A), 0x06);
    assert_eq!(cpu.registers.get(Register::PC), INITIAL_PC + 1);

    assert_eq!(result.cycles, 4);
    assert_eq!(cpu.registers.zero(), false);
    assert_eq!(cpu.registers.subtract(), false);
    assert_eq!(cpu.registers.half_carry(), false);
    assert_eq!(cpu.registers.carry(), false);
  }

  #[test]
  fn test_rlca_carry() {
    let mut cpu = create_cpu(vec![0x07]);
    cpu.registers.set(Register::A, 0x83);

    let result = cpu.execute_instruction();

    assert_eq!(cpu.registers.get(Register::A), 0x07);
    assert_eq!(cpu.registers.get(Register::PC), INITIAL_PC + 1);

    assert_eq!(result.cycles, 4);
    assert_eq!(cpu.registers.zero(), false);
    assert_eq!(cpu.registers.subtract(), false);
    assert_eq!(cpu.registers.half_carry(), false);
    assert_eq!(cpu.registers.carry(), true);
  }

  #[test]
  fn test_rlca_zero() {
    let mut cpu = create_cpu(vec![0x07]);
    cpu.registers.set(Register::A, 0x00);

    let result = cpu.execute_instruction();

    assert_eq!(cpu.registers.get(Register::A), 0x00);
    assert_eq!(cpu.registers.get(Register::PC), INITIAL_PC + 1);

    assert_eq!(result.cycles, 4);
    assert_eq!(cpu.registers.zero(), false);
    assert_eq!(cpu.registers.subtract(), false);
    assert_eq!(cpu.registers.half_carry(), false);
    assert_eq!(cpu.registers.carry(), false);
  }

  #[test]
  fn test_adc_a_r8_no_carry() {
    let mut cpu = create_cpu(vec![0x88]);
    cpu.registers.set(Register::A, 0x04);
    cpu.registers.set(Register::B, 0x05);
    cpu.registers.set_carry(true);

    let result = cpu.execute_instruction();

    assert_eq!(cpu.registers.get(Register::A), 0x000A);
    assert_eq!(cpu.registers.get(Register::PC), INITIAL_PC + 1);

    assert_eq!(result.cycles, 4);
    assert_eq!(cpu.registers.zero(), false);
    assert_eq!(cpu.registers.subtract(), false);
    assert_eq!(cpu.registers.half_carry(), false);
    assert_eq!(cpu.registers.carry(), false);
  }

  #[test]
  fn test_adc_a_r8_half_carry() {
    let mut cpu = create_cpu(vec![0x88]);
    cpu.registers.set(Register::A, 0x04);
    cpu.registers.set(Register::B, 0x0D);
    cpu.registers.set_carry(false);

    let result = cpu.execute_instruction();

    assert_eq!(cpu.registers.get(Register::A), 0x0011);
    assert_eq!(cpu.registers.get(Register::PC), INITIAL_PC + 1);

    assert_eq!(result.cycles, 4);
    assert_eq!(cpu.registers.zero(), false);
    assert_eq!(cpu.registers.subtract(), false);
    assert_eq!(cpu.registers.half_carry(), true);
    assert_eq!(cpu.registers.carry(), false);
  }

  #[test]
  fn test_adc_a_r8_carry() {
    let mut cpu = create_cpu(vec![0x88]);
    cpu.registers.set(Register::A, 0x04);
    cpu.registers.set(Register::B, 0xFE);
    cpu.registers.set_carry(true);

    let result = cpu.execute_instruction();

    assert_eq!(cpu.registers.get(Register::A), 0x0003);
    assert_eq!(cpu.registers.get(Register::PC), INITIAL_PC + 1);

    assert_eq!(result.cycles, 4);
    assert_eq!(cpu.registers.zero(), false);
    assert_eq!(cpu.registers.subtract(), false);
    assert_eq!(cpu.registers.half_carry(), true);
    assert_eq!(cpu.registers.carry(), true);
  }

  #[test]
  fn test_adc_a_r8_zero() {
    let mut cpu = create_cpu(vec![0x88]);
    cpu.registers.set(Register::A, 0x02);
    cpu.registers.set(Register::B, 0xFE);
    cpu.registers.set_carry(false);

    let result = cpu.execute_instruction();

    assert_eq!(cpu.registers.get(Register::A), 0x0000);
    assert_eq!(cpu.registers.get(Register::PC), INITIAL_PC + 1);

    assert_eq!(result.cycles, 4);
    assert_eq!(cpu.registers.zero(), true);
    assert_eq!(cpu.registers.subtract(), false);
    assert_eq!(cpu.registers.half_carry(), true);
    assert_eq!(cpu.registers.carry(), true);
  }

  #[test]
  fn test_adc_a_hl_mem_no_carry() {
    let mut cpu = create_cpu(vec![0x8E]);
    cpu.registers.set(Register::A, 0x04);
    cpu.registers.set(Register::HL, 0xF234);
    cpu.memory_bus.write(0xF234, 0x05);
    cpu.registers.set_carry(true);

    let result = cpu.execute_instruction();

    assert_eq!(cpu.registers.get(Register::A), 0x000A);
    assert_eq!(cpu.registers.get(Register::PC), INITIAL_PC + 1);

    assert_eq!(result.cycles, 8);
    assert_eq!(cpu.registers.zero(), false);
    assert_eq!(cpu.registers.subtract(), false);
    assert_eq!(cpu.registers.half_carry(), false);
    assert_eq!(cpu.registers.carry(), false);
  }

  #[test]
  fn test_adc_a_hl_mem_half_carry() {
    let mut cpu = create_cpu(vec![0x8E]);
    cpu.registers.set(Register::A, 0x04);
    cpu.registers.set(Register::HL, 0xF234);
    cpu.memory_bus.write(0xF234, 0x0D);
    cpu.registers.set_carry(false);

    let result = cpu.execute_instruction();

    assert_eq!(cpu.registers.get(Register::A), 0x0011);
    assert_eq!(cpu.registers.get(Register::PC), INITIAL_PC + 1);

    assert_eq!(result.cycles, 8);
    assert_eq!(cpu.registers.zero(), false);
    assert_eq!(cpu.registers.subtract(), false);
    assert_eq!(cpu.registers.half_carry(), true);
    assert_eq!(cpu.registers.carry(), false);
  }

  #[test]
  fn test_adc_a_hl_mem_carry() {
    let mut cpu = create_cpu(vec![0x8E]);
    cpu.registers.set(Register::A, 0x04);
    cpu.registers.set(Register::HL, 0xF234);
    cpu.memory_bus.write(0xF234, 0xFE);
    cpu.registers.set_carry(true);

    let result = cpu.execute_instruction();

    assert_eq!(cpu.registers.get(Register::A), 0x0003);
    assert_eq!(cpu.registers.get(Register::PC), INITIAL_PC + 1);

    assert_eq!(result.cycles, 8);
    assert_eq!(cpu.registers.zero(), false);
    assert_eq!(cpu.registers.subtract(), false);
    assert_eq!(cpu.registers.half_carry(), true);
    assert_eq!(cpu.registers.carry(), true);
  }

  #[test]
  fn test_adc_a_hl_mem_zero() {
    let mut cpu = create_cpu(vec![0x8E]);
    cpu.registers.set(Register::A, 0x02);
    cpu.registers.set(Register::HL, 0xF234);
    cpu.memory_bus.write(0xF234, 0xFE);
    cpu.registers.set_carry(false);

    let result = cpu.execute_instruction();

    assert_eq!(cpu.registers.get(Register::A), 0x0000);
    assert_eq!(cpu.registers.get(Register::PC), INITIAL_PC + 1);

    assert_eq!(result.cycles, 8);
    assert_eq!(cpu.registers.zero(), true);
    assert_eq!(cpu.registers.subtract(), false);
    assert_eq!(cpu.registers.half_carry(), true);
    assert_eq!(cpu.registers.carry(), true);
  }

  #[test]
  fn test_adc_a_n8_no_carry() {
    let mut cpu = create_cpu(vec![0xCE, 0x05]);
    cpu.registers.set(Register::A, 0x04);
    cpu.registers.set_carry(true);

    let result = cpu.execute_instruction();

    assert_eq!(cpu.registers.get(Register::A), 0x000A);
    assert_eq!(cpu.registers.get(Register::PC), INITIAL_PC + 2);

    assert_eq!(result.cycles, 8);
    assert_eq!(cpu.registers.zero(), false);
    assert_eq!(cpu.registers.subtract(), false);
    assert_eq!(cpu.registers.half_carry(), false);
    assert_eq!(cpu.registers.carry(), false);
  }

  #[test]
  fn test_adc_a_n8_half_carry() {
    let mut cpu = create_cpu(vec![0xCE, 0x0D]);
    cpu.registers.set(Register::A, 0x04);
    cpu.registers.set_carry(false);

    let result = cpu.execute_instruction();

    assert_eq!(cpu.registers.get(Register::A), 0x0011);
    assert_eq!(cpu.registers.get(Register::PC), INITIAL_PC + 2);

    assert_eq!(result.cycles, 8);
    assert_eq!(cpu.registers.zero(), false);
    assert_eq!(cpu.registers.subtract(), false);
    assert_eq!(cpu.registers.half_carry(), true);
    assert_eq!(cpu.registers.carry(), false);
  }

  #[test]
  fn test_adc_a_n8_carry() {
    let mut cpu = create_cpu(vec![0xCE, 0xFE]);
    cpu.registers.set(Register::A, 0x04);
    cpu.registers.set_carry(true);

    let result = cpu.execute_instruction();

    assert_eq!(cpu.registers.get(Register::A), 0x0003);
    assert_eq!(cpu.registers.get(Register::PC), INITIAL_PC + 2);

    assert_eq!(result.cycles, 8);
    assert_eq!(cpu.registers.zero(), false);
    assert_eq!(cpu.registers.subtract(), false);
    assert_eq!(cpu.registers.half_carry(), true);
    assert_eq!(cpu.registers.carry(), true);
  }

  #[test]
  fn test_adc_a_n8_zero() {
    let mut cpu = create_cpu(vec![0xCE, 0xFE]);
    cpu.registers.set(Register::A, 0x02);
    cpu.registers.set_carry(false);

    let result = cpu.execute_instruction();

    assert_eq!(cpu.registers.get(Register::A), 0x0000);
    assert_eq!(cpu.registers.get(Register::PC), INITIAL_PC + 2);

    assert_eq!(result.cycles, 8);
    assert_eq!(cpu.registers.zero(), true);
    assert_eq!(cpu.registers.subtract(), false);
    assert_eq!(cpu.registers.half_carry(), true);
    assert_eq!(cpu.registers.carry(), true);
  }

  #[test]
  fn test_daa_non_sub_no_adjust() {
    let mut cpu = create_cpu(vec![0x27]);
    cpu.registers.set(Register::A, 0x15);
    cpu.registers.set_subtract(false);
    cpu.registers.set_half_carry(false);
    cpu.registers.set_carry(false);

    let result = cpu.execute_instruction();

    assert_eq!(cpu.registers.get(Register::A), 0x15);
    assert_eq!(cpu.registers.zero(), false);
    assert_eq!(cpu.registers.half_carry(), false);
    assert_eq!(cpu.registers.carry(), false);
    assert_eq!(cpu.registers.subtract(), false);
    assert_eq!(cpu.registers.get(Register::PC), INITIAL_PC + 1);
    assert_eq!(result.cycles, 4);
  }

  #[test]
  fn test_daa_non_sub_gt9() {
    let mut cpu = create_cpu(vec![0x27]);
    cpu.registers.set(Register::A, 0x1A);
    cpu.registers.set_subtract(false);
    cpu.registers.set_half_carry(false);
    cpu.registers.set_carry(false);

    let result = cpu.execute_instruction();

    assert_eq!(cpu.registers.get(Register::A), 0x20);
    assert_eq!(cpu.registers.zero(), false);
    assert_eq!(cpu.registers.subtract(), false);
    assert_eq!(cpu.registers.half_carry(), false);
    assert_eq!(cpu.registers.carry(), false);
    assert_eq!(result.cycles, 4);
  }

  #[test]
  fn test_daa_non_sub_half_carry() {
    let mut cpu = create_cpu(vec![0x27]);
    cpu.registers.set(Register::A, 0x15);
    cpu.registers.set_subtract(false);
    cpu.registers.set_half_carry(true);
    cpu.registers.set_carry(false);

    let result = cpu.execute_instruction();

    assert_eq!(cpu.registers.get(Register::A), 0x1B);
    assert_eq!(cpu.registers.zero(), false);
    assert_eq!(cpu.registers.subtract(), false);
    assert_eq!(cpu.registers.half_carry(), false);
    assert_eq!(cpu.registers.carry(), false);
    assert_eq!(result.cycles, 4);
  }

  #[test]
  fn test_daa_non_sub_carry() {
    let mut cpu = create_cpu(vec![0x27]);
    cpu.registers.set(Register::A, 0x15);
    cpu.registers.set_subtract(false);
    cpu.registers.set_half_carry(false);
    cpu.registers.set_carry(true);

    let result = cpu.execute_instruction();

    assert_eq!(cpu.registers.get(Register::A), 0x75);
    assert_eq!(cpu.registers.zero(), false);
    assert_eq!(cpu.registers.half_carry(), false);
    assert_eq!(cpu.registers.carry(), true);
    assert_eq!(result.cycles, 4);
  }

    #[test]
  fn test_daa_non_sub_gt99() {
    let mut cpu = create_cpu(vec![0x27]);
    cpu.registers.set(Register::A, 0xC0);
    cpu.registers.set_subtract(false);
    cpu.registers.set_half_carry(false);
    cpu.registers.set_carry(false);

    let result = cpu.execute_instruction();

    assert_eq!(cpu.registers.get(Register::A), 0x20);
    assert_eq!(cpu.registers.zero(), false);
    assert_eq!(cpu.registers.half_carry(), false);
    assert_eq!(cpu.registers.carry(), true);
    assert_eq!(result.cycles, 4);
  }

  #[test]
  fn test_daa_non_sub_both() {
    let mut cpu = create_cpu(vec![0x27]);
    cpu.registers.set(Register::A, 0x9A);
    cpu.registers.set_subtract(false);
    cpu.registers.set_half_carry(false);
    cpu.registers.set_carry(false);

    let result = cpu.execute_instruction();

    assert_eq!(cpu.registers.get(Register::A), 0x00);
    assert_eq!(cpu.registers.zero(), true);
    assert_eq!(cpu.registers.half_carry(), false);
    assert_eq!(cpu.registers.carry(), true);
    assert_eq!(result.cycles, 4);
  }

  #[test]
  fn test_daa_sub_no_adjust() {
    let mut cpu = create_cpu(vec![0x27]);
    cpu.registers.set(Register::A, 0x15);
    cpu.registers.set_subtract(true);
    cpu.registers.set_half_carry(false);
    cpu.registers.set_carry(false);

    let result = cpu.execute_instruction();

    assert_eq!(cpu.registers.get(Register::A), 0x15);
    assert_eq!(cpu.registers.zero(), false);
    assert_eq!(cpu.registers.half_carry(), false);
    assert_eq!(cpu.registers.carry(), false);
    assert_eq!(cpu.registers.subtract(), true);
    assert_eq!(cpu.registers.get(Register::PC), INITIAL_PC + 1);
    assert_eq!(result.cycles, 4);
  }

  #[test]
  fn test_daa_sub_half_carry() {
    let mut cpu = create_cpu(vec![0x27]);
    cpu.registers.set(Register::A, 0x15);
    cpu.registers.set_subtract(true);
    cpu.registers.set_half_carry(true);
    cpu.registers.set_carry(false);

    let result = cpu.execute_instruction();

    assert_eq!(cpu.registers.get(Register::A), 0x0F);
    assert_eq!(cpu.registers.zero(), false);
    assert_eq!(cpu.registers.half_carry(), false);
    assert_eq!(cpu.registers.carry(), false);
    assert_eq!(cpu.registers.subtract(), true);
    assert_eq!(result.cycles, 4);
  }

  #[test]
  fn test_daa_sub_carry() {
    let mut cpu = create_cpu(vec![0x27]);
    cpu.registers.set(Register::A, 0x15);
    cpu.registers.set_subtract(true);
    cpu.registers.set_half_carry(false);
    cpu.registers.set_carry(true);

    let result = cpu.execute_instruction();

    assert_eq!(cpu.registers.get(Register::A), 0xB5);
    assert_eq!(cpu.registers.zero(), false);
    assert_eq!(cpu.registers.half_carry(), false);
    assert_eq!(cpu.registers.carry(), true);
    assert_eq!(cpu.registers.subtract(), true);
    assert_eq!(result.cycles, 4);
  }

  #[test]
  fn test_daa_sub_both() {
    let mut cpu = create_cpu(vec![0x27]);
    cpu.registers.set(Register::A, 0x66);
    cpu.registers.set_subtract(true);
    cpu.registers.set_half_carry(true);
    cpu.registers.set_carry(true);

    let result = cpu.execute_instruction();

    assert_eq!(cpu.registers.get(Register::A), 0x00);
    assert_eq!(cpu.registers.zero(), true);
    assert_eq!(cpu.registers.half_carry(), false);
    assert_eq!(cpu.registers.carry(), true);
    assert_eq!(cpu.registers.subtract(), true);
    assert_eq!(result.cycles, 4);
  }

  #[test]
  fn test_halt_sets_halted_flag() {
    let mut cpu = create_cpu(vec![0x76]);
    assert_eq!(cpu.halted, false);

    let result = cpu.execute_instruction();

    assert_eq!(cpu.halted, true);
    assert_eq!(cpu.registers.get(Register::PC), INITIAL_PC + 1);
    assert_eq!(result.cycles, 4);
  }

  #[test]
  fn test_halt_increments_pc() {
    let mut cpu = create_cpu(vec![0x76]);
    
    let result = cpu.execute_instruction();

    assert_eq!(cpu.registers.get(Register::PC), INITIAL_PC + 1);
    assert_eq!(result.cycles, 4);
  }

  #[test]
  fn test_halted_cpu_returns_without_executing() {
    let mut cpu = create_cpu(vec![0x76, 0x27]);
    
    let result1 = cpu.execute_instruction();
    assert_eq!(cpu.halted, true);
    assert_eq!(cpu.registers.get(Register::PC), INITIAL_PC + 1);
    assert_eq!(result1.cycles, 4);

    let result2 = cpu.execute_instruction();
    assert_eq!(cpu.halted, true);
    assert_eq!(cpu.registers.get(Register::PC), INITIAL_PC + 1);
    assert_eq!(result2.cycles, 4);
  }

  #[test]
  fn test_halt_wakes_on_interrupt_with_ime_set() {
    let mut cpu = create_cpu(vec![0x76]);
    cpu.ime = true;
    
    let result = cpu.execute_instruction();
    assert_eq!(cpu.halted, true);
    assert_eq!(result.cycles, 4);

    cpu.memory_bus.set_if_flag(0x01);
    cpu.memory_bus.set_ie_flag(0x01);

    let result = cpu.execute_instruction();
    assert_eq!(cpu.halted, false);
    assert_eq!(result.cycles, 20);
  }

  #[test]
  fn test_halt_wakes_on_interrupt_without_ime() {
    let mut cpu = create_cpu(vec![0x76, 0x00]);
    cpu.ime = false;
    
    let result = cpu.execute_instruction();
    assert_eq!(cpu.halted, true);

    cpu.memory_bus.set_if_flag(0x01);
    cpu.memory_bus.set_ie_flag(0x01);

    let _result = cpu.execute_instruction();
    assert_eq!(cpu.halted, false);
    assert_eq!(cpu.registers.get(Register::PC), INITIAL_PC + 2);
    assert_eq!(result.cycles, 4);
  }

  #[test]
  fn test_halt_no_interrupt_stays_halted() {
    let mut cpu = create_cpu(vec![0x76]);
    cpu.ime = true;
    
    let _result = cpu.execute_instruction();
    assert_eq!(cpu.halted, true);

    let _result = cpu.execute_instruction();
    assert_eq!(cpu.halted, true);
    assert_eq!(cpu.registers.get(Register::PC), INITIAL_PC + 1);
  }

  #[test]
  fn test_halt_interrupt_lower_priority_wakes() {
    let mut cpu = create_cpu(vec![0x76]);
    cpu.ime = true;
    
    let _result = cpu.execute_instruction();
    assert_eq!(cpu.halted, true);

    cpu.memory_bus.set_if_flag(0x1F);
    cpu.memory_bus.set_ie_flag(0x1F);

    let result = cpu.execute_instruction();
    assert_eq!(cpu.halted, false);
    assert_eq!(result.cycles, 20);
  }

  #[test]
  fn test_swap_r8_non_zero() {
    let mut cpu = create_cpu(vec![0xCB, 0x30]);
    cpu.registers.set(Register::B, 0x01);

    let result = cpu.execute_instruction();

    assert_eq!(result.cycles, 8);
    assert_eq!(cpu.registers.get(Register::PC), INITIAL_PC + 2);
    assert_eq!(cpu.registers.get(Register::B), 0x10);
    assert_eq!(cpu.registers.zero(), false);
    assert_eq!(cpu.registers.subtract(), false);
    assert_eq!(cpu.registers.half_carry(), false);
    assert_eq!(cpu.registers.carry(), false);
  }

  #[test]
  fn test_swap_r8_zero() {
    let mut cpu = create_cpu(vec![0xCB, 0x30]);
    cpu.registers.set(Register::B, 0x00);

    let result = cpu.execute_instruction();

    assert_eq!(result.cycles, 8);
    assert_eq!(cpu.registers.get(Register::PC), INITIAL_PC + 2);
    assert_eq!(cpu.registers.get(Register::B), 0x00);
    assert_eq!(cpu.registers.zero(), true);
    assert_eq!(cpu.registers.subtract(), false);
    assert_eq!(cpu.registers.half_carry(), false);
    assert_eq!(cpu.registers.carry(), false);
  }

  #[test]
  fn test_swap_hl_mem_non_zero() {
    let mut cpu = create_cpu(vec![0xCB, 0x36]);
    cpu.registers.set(Register::HL, 0xF234);
    cpu.memory_bus.write(0xF234, 0x01);

    let result = cpu.execute_instruction();

    assert_eq!(result.cycles, 16);
    assert_eq!(cpu.registers.get(Register::PC), INITIAL_PC + 2);
    assert_eq!(cpu.memory_bus.read(0xF234), 0x10);
    assert_eq!(cpu.registers.zero(), false);
    assert_eq!(cpu.registers.subtract(), false);
    assert_eq!(cpu.registers.half_carry(), false);
    assert_eq!(cpu.registers.carry(), false);
  }

  #[test]
  fn test_swap_hl_mem_zero() {
    let mut cpu = create_cpu(vec![0xCB, 0x36]);
    cpu.registers.set(Register::HL, 0xF234);
    cpu.memory_bus.write(0xF234, 0x00);

    let result = cpu.execute_instruction();

    assert_eq!(result.cycles, 16);
    assert_eq!(cpu.registers.get(Register::PC), INITIAL_PC + 2);
    assert_eq!(cpu.memory_bus.read(0xF234), 0x00);
    assert_eq!(cpu.registers.zero(), true);
    assert_eq!(cpu.registers.subtract(), false);
    assert_eq!(cpu.registers.half_carry(), false);
    assert_eq!(cpu.registers.carry(), false);
  }

  #[test]
  fn test_sbc_a_r8_no_carry() {
    let mut cpu = create_cpu(vec![0x98]);
    cpu.registers.set(Register::A, 0x05);
    cpu.registers.set(Register::B, 0x03);
    cpu.registers.set_carry(false);

    let result = cpu.execute_instruction();

    assert_eq!(cpu.registers.get(Register::A), 0x0002);
    assert_eq!(cpu.registers.get(Register::PC), INITIAL_PC + 1);

    assert_eq!(result.cycles, 4);
    assert_eq!(cpu.registers.zero(), false);
    assert_eq!(cpu.registers.subtract(), true);
    assert_eq!(cpu.registers.half_carry(), false);
    assert_eq!(cpu.registers.carry(), false);
  }

  #[test]
  fn test_sbc_a_r8_with_carry() {
    let mut cpu = create_cpu(vec![0x98]);
    cpu.registers.set(Register::A, 0x05);
    cpu.registers.set(Register::B, 0x03);
    cpu.registers.set_carry(true);

    let result = cpu.execute_instruction();

    assert_eq!(cpu.registers.get(Register::A), 0x0001);
    assert_eq!(cpu.registers.get(Register::PC), INITIAL_PC + 1);

    assert_eq!(result.cycles, 4);
    assert_eq!(cpu.registers.zero(), false);
    assert_eq!(cpu.registers.subtract(), true);
    assert_eq!(cpu.registers.half_carry(), false);
    assert_eq!(cpu.registers.carry(), false);
  }

  #[test]
  fn test_sbc_a_r8_half_carry() {
    let mut cpu = create_cpu(vec![0x98]);
    cpu.registers.set(Register::A, 0x10);
    cpu.registers.set(Register::B, 0x01);
    cpu.registers.set_carry(false);

    let result = cpu.execute_instruction();

    assert_eq!(cpu.registers.get(Register::A), 0x000F);
    assert_eq!(cpu.registers.get(Register::PC), INITIAL_PC + 1);

    assert_eq!(result.cycles, 4);
    assert_eq!(cpu.registers.zero(), false);
    assert_eq!(cpu.registers.subtract(), true);
    assert_eq!(cpu.registers.half_carry(), true);
    assert_eq!(cpu.registers.carry(), false);
  }

  #[test]
  fn test_sbc_a_r8_carry_flag() {
    let mut cpu = create_cpu(vec![0x98]);
    cpu.registers.set(Register::A, 0x03);
    cpu.registers.set(Register::B, 0x05);
    cpu.registers.set_carry(false);

    let result = cpu.execute_instruction();

    assert_eq!(cpu.registers.get(Register::A), 0x00FE);
    assert_eq!(cpu.registers.get(Register::PC), INITIAL_PC + 1);

    assert_eq!(result.cycles, 4);
    assert_eq!(cpu.registers.zero(), false);
    assert_eq!(cpu.registers.subtract(), true);
    assert_eq!(cpu.registers.half_carry(), true);
    assert_eq!(cpu.registers.carry(), true);
  }

  #[test]
  fn test_sbc_a_r8_zero() {
    let mut cpu = create_cpu(vec![0x98]);
    cpu.registers.set(Register::A, 0x05);
    cpu.registers.set(Register::B, 0x05);
    cpu.registers.set_carry(false);

    let result = cpu.execute_instruction();

    assert_eq!(cpu.registers.get(Register::A), 0x0000);
    assert_eq!(cpu.registers.get(Register::PC), INITIAL_PC + 1);

    assert_eq!(result.cycles, 4);
    assert_eq!(cpu.registers.zero(), true);
    assert_eq!(cpu.registers.subtract(), true);
    assert_eq!(cpu.registers.half_carry(), false);
    assert_eq!(cpu.registers.carry(), false);
  }

  #[test]
  fn test_sbc_a_hl_mem_no_carry() {
    let mut cpu = create_cpu(vec![0x9E]);
    cpu.registers.set(Register::A, 0x05);
    cpu.registers.set(Register::HL, 0xF234);
    cpu.memory_bus.write(0xF234, 0x03);
    cpu.registers.set_carry(false);

    let result = cpu.execute_instruction();

    assert_eq!(cpu.registers.get(Register::A), 0x0002);
    assert_eq!(cpu.registers.get(Register::PC), INITIAL_PC + 1);

    assert_eq!(result.cycles, 8);
    assert_eq!(cpu.registers.zero(), false);
    assert_eq!(cpu.registers.subtract(), true);
    assert_eq!(cpu.registers.half_carry(), false);
    assert_eq!(cpu.registers.carry(), false);
  }

  #[test]
  fn test_sbc_a_hl_mem_with_carry() {
    let mut cpu = create_cpu(vec![0x9E]);
    cpu.registers.set(Register::A, 0x05);
    cpu.registers.set(Register::HL, 0xF234);
    cpu.memory_bus.write(0xF234, 0x03);
    cpu.registers.set_carry(true);

    let result = cpu.execute_instruction();

    assert_eq!(cpu.registers.get(Register::A), 0x0001);
    assert_eq!(cpu.registers.get(Register::PC), INITIAL_PC + 1);

    assert_eq!(result.cycles, 8);
    assert_eq!(cpu.registers.zero(), false);
    assert_eq!(cpu.registers.subtract(), true);
    assert_eq!(cpu.registers.half_carry(), false);
    assert_eq!(cpu.registers.carry(), false);
  }

  #[test]
  fn test_sbc_a_hl_mem_half_carry() {
    let mut cpu = create_cpu(vec![0x9E]);
    cpu.registers.set(Register::A, 0x10);
    cpu.registers.set(Register::HL, 0xF234);
    cpu.memory_bus.write(0xF234, 0x01);
    cpu.registers.set_carry(false);

    let result = cpu.execute_instruction();

    assert_eq!(cpu.registers.get(Register::A), 0x000F);
    assert_eq!(cpu.registers.get(Register::PC), INITIAL_PC + 1);

    assert_eq!(result.cycles, 8);
    assert_eq!(cpu.registers.zero(), false);
    assert_eq!(cpu.registers.subtract(), true);
    assert_eq!(cpu.registers.half_carry(), true);
    assert_eq!(cpu.registers.carry(), false);
  }

  #[test]
  fn test_sbc_a_hl_mem_carry_flag() {
    let mut cpu = create_cpu(vec![0x9E]);
    cpu.registers.set(Register::A, 0x03);
    cpu.registers.set(Register::HL, 0xF234);
    cpu.memory_bus.write(0xF234, 0x05);
    cpu.registers.set_carry(false);

    let result = cpu.execute_instruction();

    assert_eq!(cpu.registers.get(Register::A), 0x00FE);
    assert_eq!(cpu.registers.get(Register::PC), INITIAL_PC + 1);

    assert_eq!(result.cycles, 8);
    assert_eq!(cpu.registers.zero(), false);
    assert_eq!(cpu.registers.subtract(), true);
    assert_eq!(cpu.registers.half_carry(), true);
    assert_eq!(cpu.registers.carry(), true);
  }

  #[test]
  fn test_sbc_a_hl_mem_zero() {
    let mut cpu = create_cpu(vec![0x9E]);
    cpu.registers.set(Register::A, 0x05);
    cpu.registers.set(Register::HL, 0xF234);
    cpu.memory_bus.write(0xF234, 0x05);
    cpu.registers.set_carry(false);

    let result = cpu.execute_instruction();

    assert_eq!(cpu.registers.get(Register::A), 0x0000);
    assert_eq!(cpu.registers.get(Register::PC), INITIAL_PC + 1);

    assert_eq!(result.cycles, 8);
    assert_eq!(cpu.registers.zero(), true);
    assert_eq!(cpu.registers.subtract(), true);
    assert_eq!(cpu.registers.half_carry(), false);
    assert_eq!(cpu.registers.carry(), false);
  }

  #[test]
  fn test_sbc_a_n8_no_carry() {
    let mut cpu = create_cpu(vec![0xDE, 0x03]);
    cpu.registers.set(Register::A, 0x05);
    cpu.registers.set_carry(false);

    let result = cpu.execute_instruction();

    assert_eq!(cpu.registers.get(Register::A), 0x0002);
    assert_eq!(cpu.registers.get(Register::PC), INITIAL_PC + 2);

    assert_eq!(result.cycles, 8);
    assert_eq!(cpu.registers.zero(), false);
    assert_eq!(cpu.registers.subtract(), true);
    assert_eq!(cpu.registers.half_carry(), false);
    assert_eq!(cpu.registers.carry(), false);
  }

  #[test]
  fn test_sbc_a_n8_with_carry() {
    let mut cpu = create_cpu(vec![0xDE, 0x03]);
    cpu.registers.set(Register::A, 0x05);
    cpu.registers.set_carry(true);

    let result = cpu.execute_instruction();

    assert_eq!(cpu.registers.get(Register::A), 0x0001);
    assert_eq!(cpu.registers.get(Register::PC), INITIAL_PC + 2);

    assert_eq!(result.cycles, 8);
    assert_eq!(cpu.registers.zero(), false);
    assert_eq!(cpu.registers.subtract(), true);
    assert_eq!(cpu.registers.half_carry(), false);
    assert_eq!(cpu.registers.carry(), false);
  }

  #[test]
  fn test_sbc_a_n8_half_carry() {
    let mut cpu = create_cpu(vec![0xDE, 0x01]);
    cpu.registers.set(Register::A, 0x10);
    cpu.registers.set_carry(false);

    let result = cpu.execute_instruction();

    assert_eq!(cpu.registers.get(Register::A), 0x000F);
    assert_eq!(cpu.registers.get(Register::PC), INITIAL_PC + 2);

    assert_eq!(result.cycles, 8);
    assert_eq!(cpu.registers.zero(), false);
    assert_eq!(cpu.registers.subtract(), true);
    assert_eq!(cpu.registers.half_carry(), true);
    assert_eq!(cpu.registers.carry(), false);
  }

  #[test]
  fn test_sbc_a_n8_carry_flag() {
    let mut cpu = create_cpu(vec![0xDE, 0x05]);
    cpu.registers.set(Register::A, 0x03);
    cpu.registers.set_carry(false);

    let result = cpu.execute_instruction();

    assert_eq!(cpu.registers.get(Register::A), 0x00FE);
    assert_eq!(cpu.registers.get(Register::PC), INITIAL_PC + 2);

    assert_eq!(result.cycles, 8);
    assert_eq!(cpu.registers.zero(), false);
    assert_eq!(cpu.registers.subtract(), true);
    assert_eq!(cpu.registers.half_carry(), true);
    assert_eq!(cpu.registers.carry(), true);
  }

  #[test]
  fn test_sbc_a_n8_zero() {
    let mut cpu = create_cpu(vec![0xDE, 0x05]);
    cpu.registers.set(Register::A, 0x05);
    cpu.registers.set_carry(false);

    let result = cpu.execute_instruction();

    assert_eq!(cpu.registers.get(Register::A), 0x0000);
    assert_eq!(cpu.registers.get(Register::PC), INITIAL_PC + 2);

    assert_eq!(result.cycles, 8);
    assert_eq!(cpu.registers.zero(), true);
    assert_eq!(cpu.registers.subtract(), true);
    assert_eq!(cpu.registers.half_carry(), false);
    assert_eq!(cpu.registers.carry(), false);
  }

  #[test]
  fn test_cpl() {
    let mut cpu = create_cpu(vec![0x2F]);
    cpu.registers.set(Register::A, 0x05);

    let result = cpu.execute_instruction();

    assert_eq!(cpu.registers.get(Register::A), 0x00FA);
    assert_eq!(cpu.registers.get(Register::PC), INITIAL_PC + 1);

    assert_eq!(result.cycles, 4);
    assert_eq!(cpu.registers.zero(), INITIAL_ZERO_FLAG);
    assert_eq!(cpu.registers.subtract(), true);
    assert_eq!(cpu.registers.half_carry(), true);
    assert_eq!(cpu.registers.carry(), INITIAL_CARRY_FLAG);
  }

  #[test]
  fn test_scf_already_off() {
    let mut cpu = create_cpu(vec![0x37]);
    cpu.registers.set_subtract(true);
    cpu.registers.set_half_carry(true);
    cpu.registers.set_carry(false);

    let result = cpu.execute_instruction();

    assert_eq!(cpu.registers.get(Register::PC), INITIAL_PC + 1);

    assert_eq!(result.cycles, 4);
    assert_eq!(cpu.registers.zero(), INITIAL_ZERO_FLAG);
    assert_eq!(cpu.registers.subtract(), false);
    assert_eq!(cpu.registers.half_carry(), false);
    assert_eq!(cpu.registers.carry(), true);
  }

  #[test]
  fn test_scf_already_on() {
    let mut cpu = create_cpu(vec![0x37]);
    cpu.registers.set_subtract(true);
    cpu.registers.set_half_carry(true);
    cpu.registers.set_carry(true);

    let result = cpu.execute_instruction();

    assert_eq!(cpu.registers.get(Register::PC), INITIAL_PC + 1);

    assert_eq!(result.cycles, 4);
    assert_eq!(cpu.registers.zero(), INITIAL_ZERO_FLAG);
    assert_eq!(cpu.registers.subtract(), false);
    assert_eq!(cpu.registers.half_carry(), false);
    assert_eq!(cpu.registers.carry(), true);
  }

  #[test]
  fn test_ccf_switch_on() {
    let mut cpu = create_cpu(vec![0x3F]);
    cpu.registers.set_subtract(true);
    cpu.registers.set_half_carry(true);
    cpu.registers.set_carry(false);

    let result = cpu.execute_instruction();

    assert_eq!(cpu.registers.get(Register::PC), INITIAL_PC + 1);

    assert_eq!(result.cycles, 4);
    assert_eq!(cpu.registers.zero(), INITIAL_ZERO_FLAG);
    assert_eq!(cpu.registers.subtract(), false);
    assert_eq!(cpu.registers.half_carry(), false);
    assert_eq!(cpu.registers.carry(), true);
  }

  #[test]
  fn test_ccf_switch_off() {
    let mut cpu = create_cpu(vec![0x3F]);
    cpu.registers.set_subtract(true);
    cpu.registers.set_half_carry(true);
    cpu.registers.set_carry(true);

    let result = cpu.execute_instruction();

    assert_eq!(cpu.registers.get(Register::PC), INITIAL_PC + 1);

    assert_eq!(result.cycles, 4);
    assert_eq!(cpu.registers.zero(), INITIAL_ZERO_FLAG);
    assert_eq!(cpu.registers.subtract(), false);
    assert_eq!(cpu.registers.half_carry(), false);
    assert_eq!(cpu.registers.carry(), false);
  }

  #[test]
  fn test_bit_0_b_set() {
    let mut cpu = create_cpu(vec![0xCB, 0x40]);
    cpu.registers.set(Register::B, 0x01); // bit 0 set

    let result = cpu.execute_instruction();

    assert_eq!(cpu.registers.get(Register::PC), INITIAL_PC + 2);

    assert_eq!(result.cycles, 8);
    assert_eq!(cpu.registers.zero(), false);
    assert_eq!(cpu.registers.subtract(), false);
    assert_eq!(cpu.registers.half_carry(), true);
    assert_eq!(cpu.registers.carry(), INITIAL_CARRY_FLAG);
  }

  #[test]
  fn test_bit_0_b_clear() {
    let mut cpu = create_cpu(vec![0xCB, 0x40]);
    cpu.registers.set(Register::B, 0xFE); // bit 0 clear

    let result = cpu.execute_instruction();

    assert_eq!(cpu.registers.get(Register::PC), INITIAL_PC + 2);

    assert_eq!(result.cycles, 8);
    assert_eq!(cpu.registers.zero(), true);
    assert_eq!(cpu.registers.subtract(), false);
    assert_eq!(cpu.registers.half_carry(), true);
    assert_eq!(cpu.registers.carry(), INITIAL_CARRY_FLAG);
  }

  #[test]
  fn test_bit_7_a_set() {
    let mut cpu = create_cpu(vec![0xCB, 0x7F]);
    cpu.registers.set(Register::A, 0x80); // bit 7 set

    let result = cpu.execute_instruction();

    assert_eq!(cpu.registers.get(Register::PC), INITIAL_PC + 2);

    assert_eq!(result.cycles, 8);
    assert_eq!(cpu.registers.zero(), false);
    assert_eq!(cpu.registers.subtract(), false);
    assert_eq!(cpu.registers.half_carry(), true);
    assert_eq!(cpu.registers.carry(), INITIAL_CARRY_FLAG);
  }

  #[test]
  fn test_bit_7_a_clear() {
    let mut cpu = create_cpu(vec![0xCB, 0x7F]);
    cpu.registers.set(Register::A, 0x7F); // bit 7 clear

    let result = cpu.execute_instruction();

    assert_eq!(cpu.registers.get(Register::PC), INITIAL_PC + 2);

    assert_eq!(result.cycles, 8);
    assert_eq!(cpu.registers.zero(), true);
    assert_eq!(cpu.registers.subtract(), false);
    assert_eq!(cpu.registers.half_carry(), true);
    assert_eq!(cpu.registers.carry(), INITIAL_CARRY_FLAG);
  }

  #[test]
  fn test_bit_4_hl_mem_set() {
    let mut cpu = create_cpu(vec![0xCB, 0x66]);
    cpu.registers.set(Register::HL, 0xF234);
    cpu.memory_bus.write(0xF234, 0x10); // bit 4 set

    let result = cpu.execute_instruction();

    assert_eq!(cpu.registers.get(Register::PC), INITIAL_PC + 2);

    assert_eq!(result.cycles, 12);
    assert_eq!(cpu.registers.zero(), false);
    assert_eq!(cpu.registers.subtract(), false);
    assert_eq!(cpu.registers.half_carry(), true);
    assert_eq!(cpu.registers.carry(), INITIAL_CARRY_FLAG);
  }

  #[test]
  fn test_bit_4_hl_mem_clear() {
    let mut cpu = create_cpu(vec![0xCB, 0x66]);
    cpu.registers.set(Register::HL, 0xF234);
    cpu.memory_bus.write(0xF234, 0xEF); // bit 4 clear

    let result = cpu.execute_instruction();

    assert_eq!(cpu.registers.get(Register::PC), INITIAL_PC + 2);

    assert_eq!(result.cycles, 12);
    assert_eq!(cpu.registers.zero(), true);
    assert_eq!(cpu.registers.subtract(), false);
    assert_eq!(cpu.registers.half_carry(), true);
    assert_eq!(cpu.registers.carry(), INITIAL_CARRY_FLAG);
  }

  #[test]
  fn test_res_0_b() {
    let mut cpu = create_cpu(vec![0xCB, 0x80]);
    cpu.registers.set(Register::B, 0xFF); // all bits set

    let result = cpu.execute_instruction();

    assert_eq!(cpu.registers.get(Register::B), 0xFE); // bit 0 cleared
    assert_eq!(cpu.registers.get(Register::PC), INITIAL_PC + 2);

    assert_eq!(result.cycles, 8);
    assert_eq!(cpu.registers.zero(), INITIAL_ZERO_FLAG);
    assert_eq!(cpu.registers.subtract(), INITIAL_SUBTRACT_FLAG);
    assert_eq!(cpu.registers.half_carry(), INITIAL_HALF_CARRY_FLAG);
    assert_eq!(cpu.registers.carry(), INITIAL_CARRY_FLAG);
  }

  #[test]
  fn test_res_7_a() {
    let mut cpu = create_cpu(vec![0xCB, 0xBF]);
    cpu.registers.set(Register::A, 0xFF);

    let result = cpu.execute_instruction();

    assert_eq!(cpu.registers.get(Register::A), 0x7F); // bit 7 cleared
    assert_eq!(cpu.registers.get(Register::PC), INITIAL_PC + 2);

    assert_eq!(result.cycles, 8);
    assert_eq!(cpu.registers.zero(), INITIAL_ZERO_FLAG);
    assert_eq!(cpu.registers.subtract(), INITIAL_SUBTRACT_FLAG);
    assert_eq!(cpu.registers.half_carry(), INITIAL_HALF_CARRY_FLAG);
    assert_eq!(cpu.registers.carry(), INITIAL_CARRY_FLAG);
  }

  #[test]
  fn test_res_4_hl_mem() {
    let mut cpu = create_cpu(vec![0xCB, 0xA6]);
    cpu.registers.set(Register::HL, 0xF234);
    cpu.memory_bus.write(0xF234, 0xFF);

    let result = cpu.execute_instruction();

    assert_eq!(cpu.memory_bus.read(0xF234), 0xEF); // bit 4 cleared
    assert_eq!(cpu.registers.get(Register::PC), INITIAL_PC + 2);

    assert_eq!(result.cycles, 16);
    assert_eq!(cpu.registers.zero(), INITIAL_ZERO_FLAG);
    assert_eq!(cpu.registers.subtract(), INITIAL_SUBTRACT_FLAG);
    assert_eq!(cpu.registers.half_carry(), INITIAL_HALF_CARRY_FLAG);
    assert_eq!(cpu.registers.carry(), INITIAL_CARRY_FLAG);
  }

  #[test]
  fn test_set_0_c() {
    let mut cpu = create_cpu(vec![0xCB, 0xC1]);
    cpu.registers.set(Register::C, 0x00); // all bits clear

    let result = cpu.execute_instruction();

    assert_eq!(cpu.registers.get(Register::C), 0x01); // bit 0 set
    assert_eq!(cpu.registers.get(Register::PC), INITIAL_PC + 2);

    assert_eq!(result.cycles, 8);
    assert_eq!(cpu.registers.zero(), INITIAL_ZERO_FLAG);
    assert_eq!(cpu.registers.subtract(), INITIAL_SUBTRACT_FLAG);
    assert_eq!(cpu.registers.half_carry(), INITIAL_HALF_CARRY_FLAG);
    assert_eq!(cpu.registers.carry(), INITIAL_CARRY_FLAG);
  }

  #[test]
  fn test_set_7_d() {
    let mut cpu = create_cpu(vec![0xCB, 0xFA]);
    cpu.registers.set(Register::D, 0x00);

    let result = cpu.execute_instruction();

    assert_eq!(cpu.registers.get(Register::D), 0x80); // bit 7 set
    assert_eq!(cpu.registers.get(Register::PC), INITIAL_PC + 2);

    assert_eq!(result.cycles, 8);
    assert_eq!(cpu.registers.zero(), INITIAL_ZERO_FLAG);
    assert_eq!(cpu.registers.subtract(), INITIAL_SUBTRACT_FLAG);
    assert_eq!(cpu.registers.half_carry(), INITIAL_HALF_CARRY_FLAG);
    assert_eq!(cpu.registers.carry(), INITIAL_CARRY_FLAG);
  }

  #[test]
  fn test_set_3_hl_mem() {
    let mut cpu = create_cpu(vec![0xCB, 0xDE]);
    cpu.registers.set(Register::HL, 0xF234);
    cpu.memory_bus.write(0xF234, 0x00);

    let result = cpu.execute_instruction();

    assert_eq!(cpu.memory_bus.read(0xF234), 0x08); // bit 3 set
    assert_eq!(cpu.registers.get(Register::PC), INITIAL_PC + 2);

    assert_eq!(result.cycles, 16);
    assert_eq!(cpu.registers.zero(), INITIAL_ZERO_FLAG);
    assert_eq!(cpu.registers.subtract(), INITIAL_SUBTRACT_FLAG);
    assert_eq!(cpu.registers.half_carry(), INITIAL_HALF_CARRY_FLAG);
    assert_eq!(cpu.registers.carry(), INITIAL_CARRY_FLAG);
  }

  #[test]
  fn test_stop() {
    let mut cpu = create_cpu(vec![0x10, 0x00]);

    let result = cpu.execute_instruction();

    assert_eq!(cpu.registers.get(Register::PC), INITIAL_PC + 2);

    assert_eq!(result.cycles, 4);
    assert_eq!(cpu.registers.zero(), INITIAL_ZERO_FLAG);
    assert_eq!(cpu.registers.subtract(), INITIAL_SUBTRACT_FLAG);
    assert_eq!(cpu.registers.half_carry(), INITIAL_HALF_CARRY_FLAG);
    assert_eq!(cpu.registers.carry(), INITIAL_CARRY_FLAG);
  }

