use m6502::bus::Bus;
use m6502::CPU;
use std::cell::Cell;

/// A bus with a device in it: every read of the cell at 0x00FE gives the
/// next number of a count, and a write there is dropped.
struct Counting {
    cells: Vec<u8>,
    count: Cell<u8>,
}

impl Bus for Counting {
    fn read(&self, addr: u16) -> u8 {
        if addr == 0x00FE {
            self.count.set(self.count.get().wrapping_add(1));
            return self.count.get();
        }
        self.cells[addr as usize]
    }

    fn write(&mut self, addr: u16, data: u8) {
        if addr != 0x00FE {
            self.cells[addr as usize] = data;
        }
    }
}

#[test]
fn processor_runs_on_a_bus_with_a_device() {
    let mut bus = Counting {
        cells: vec![0; 0x10000],
        count: Cell::new(0),
    };
    bus.write_word(0x0600, 0xFEA5);
    bus.write_word(0x0602, 0x1085);
    bus.write_word(0x0604, 0xFEA5);
    let mut cpu = CPU::new(bus);
    cpu.pc = 0x0600;
    assert_eq!(cpu.execute(), Ok(()));
    assert_eq!(cpu.ac, 1);
    assert_eq!(cpu.execute(), Ok(()));
    assert_eq!(cpu.bus.read(0x0010), 1);
    assert_eq!(cpu.execute(), Ok(()));
    assert_eq!(cpu.ac, 2);
    assert_eq!(cpu.bus.read_word(0x0600), 0xFEA5);
}
