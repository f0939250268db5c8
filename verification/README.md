# uart_stack

Verified decision logic of a UART stack, written in Verus.

| module | what it holds |
| --- | --- |
| `ring`, `chardev` | a bounded FIFO and the character device on top of it |
| `serial` | the serial-core layer: drivers and lines, ports and line settings, the locked port, DMA |
| `dmaengine` | acquiring a DMA channel and checking transfers |
| `dw_uart` | the DesignWare UART controller: divisors, configuration, transmission, reception, interrupts, probing |
| `frame` | the CRC-protected frame of the RS485 test |
| `rs485` | deadline-bounded transfers, the command line, the two ends of the echo test, and the regression tests |
| `error`, `errno`, `text` | errors and the texts that go with them |

The library performs no I/O. An operation that needs a register, a system call,
the clock or another part of the kernel is a small machine: it names what it
needs next, and is resumed with what came back. Each machine has a specification
function that gives its next state, and most have a measure that every reply
brings down, so the work is bounded whatever the device does. What holds of
several operations together stands at the end of each file, as `law_*` proof
functions.

`app/` is the code around the library that does perform I/O: the test tool
(`main.rs`), and under `app/kernel/` the glue of the two kernel modules. The glue
needs the `kernel` crate of a kernel tree and is not built together with the tool.
