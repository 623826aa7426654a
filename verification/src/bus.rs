use vstd::prelude::*;

verus! {

/// One transaction on the two-wire bus, as the driver's contracts record it:
/// either a plain write of a byte sequence to a device address, or a
/// write-then-read exchange that sent `data` and read `resp` back.
pub enum BusOp {
    Write { addr: u8, data: Seq<u8> },
    WriteRead { addr: u8, data: Seq<u8>, resp: Seq<u8> },
}

/// The high byte of a 16-bit register word as it travels over the wire.
pub open spec fn be_hi(value: u16) -> u8 {
    (value >> 8) as u8
}

/// The low byte of a 16-bit register word as it travels over the wire.
pub open spec fn be_lo(value: u16) -> u8 {
    (value & 0xff) as u8
}

/// The bus transaction that writes `value` to the register `register` of the
/// device at `addr`: the register address byte followed by the word's two
/// bytes, high byte first.
pub open spec fn write_op(addr: u8, register: u8, value: u16) -> BusOp {
    BusOp::Write { addr, data: seq![register, be_hi(value), be_lo(value)] }
}

/// The bus transaction that reads `value` back from the register `register`
/// of the device at `addr`: the register address byte is written, then the
/// word's two bytes are read, high byte first.
pub open spec fn read_op(addr: u8, register: u8, value: u16) -> BusOp {
    BusOp::WriteRead { addr, data: seq![register], resp: seq![be_hi(value), be_lo(value)] }
}

/// A blocking byte-oriented bus endpoint, the transport the driver talks
/// through. The ghost `history` is the sequence of completed transactions:
/// each successful operation appends exactly one, and a failed operation
/// appends nothing. Errors are transport-defined.
pub trait I2cBus: Sized {
    type BusErr;

    /// The transactions this endpoint has completed, oldest first. A
    /// verified endpoint must supply its own history: under the default,
    /// always empty, no operation can ever satisfy its success contract.
    /// The default exists only so that an unverified endpoint outside the
    /// verifier need not name a ghost sequence.
    open spec fn history(self) -> Seq<BusOp> {
        Seq::empty()
    }

    /// Send `data` to the device at `addr` as one bus transaction.
    fn bus_write(&mut self, addr: u8, data: Vec<u8>) -> (r: Result<(), Self::BusErr>)
        ensures
            r is Ok ==> final(self).history() == old(self).history().push(
                (BusOp::Write { addr, data: data@ }),
            ),
            r is Err ==> final(self).history() == old(self).history(),
    ;

    /// Send `data` to the device at `addr`, then read exactly `read_len`
    /// bytes back, as one bus transaction.
    fn bus_write_read(&mut self, addr: u8, data: Vec<u8>, read_len: usize) -> (r: Result<
        Vec<u8>,
        Self::BusErr,
    >)
        ensures
            r matches Ok(resp) ==> resp@.len() == read_len && final(self).history() == old(
                self,
            ).history().push((BusOp::WriteRead { addr, data: data@, resp: resp@ })),
            r is Err ==> final(self).history() == old(self).history(),
    ;
}

/// One scripted transaction of the mock bus: what the device under test is
/// expected to send, and, for an exchange, the bytes the bus will hand back.
#[derive(Debug)]
pub enum MockTransaction {
    Write { addr: u8, data: Vec<u8> },
    WriteRead { addr: u8, data: Vec<u8>, resp: Vec<u8> },
}

/// The mock bus refuses an operation that runs past or departs from its
/// script; it never panics.
#[derive(Debug, Clone, Copy, PartialEq, Eq, Structural)]
pub enum MockError {
    Exhausted,
    Mismatch,
}

/// A scripted bus endpoint for tests: it accepts exactly the expected
/// transactions in order, answers exchanges with the scripted bytes, and
/// reports any departure as a `MockError`.
pub struct MockBus {
    expected: Vec<MockTransaction>,
    position: usize,
    log: Ghost<Seq<BusOp>>,
}

fn clone_bytes(v: &Vec<u8>) -> (r: Vec<u8>)
    ensures
        r@ == v@,
{
    let mut r: Vec<u8> = Vec::new();
    let mut i: usize = 0;
    while i < v.len()
        invariant
            i <= v.len(),
            r@ == v@.take(i as int),
        decreases v.len() - i,
    {
        r.push(v[i]);
        proof {
            assert(v@.take(i + 1 as int) =~= v@.take(i as int).push(v@[i as int]));
        }
        i = i + 1;
    }
    proof {
        assert(v@.take(v@.len() as int) =~= v@);
    }
    r
}

impl MockBus {
    /// Whether the whole script has been consumed.
    pub closed spec fn done(self) -> bool {
        self.position == self.expected.len()
    }

    /// A mock bus that will accept exactly `expected`, in order.
    pub fn new(expected: Vec<MockTransaction>) -> (r: MockBus)
        ensures
            r.history() == Seq::<BusOp>::empty(),
            r.done() == (expected@.len() == 0),
    {
        MockBus { expected, position: 0, log: Ghost(Seq::empty()) }
    }

    /// Whether the whole script has been consumed.
    pub fn is_done(&self) -> (r: bool)
        ensures
            r == self.done(),
    {
        self.position == self.expected.len()
    }
}

impl I2cBus for MockBus {
    type BusErr = MockError;

    closed spec fn history(self) -> Seq<BusOp> {
        self.log@
    }

    fn bus_write(&mut self, addr: u8, data: Vec<u8>) -> (r: Result<(), MockError>) {
        if self.position >= self.expected.len() {
            return Err(MockError::Exhausted);
        }
        let accepted: bool = match &self.expected[self.position] {
            MockTransaction::Write { addr: exp_addr, data: exp_data } => *exp_addr == addr
                && *exp_data == data,
            _ => false,
        };
        if accepted {
            self.position = self.position + 1;
            proof {
                self.log@ = self.log@.push(BusOp::Write { addr, data: data@ });
            }
            Ok(())
        } else {
            Err(MockError::Mismatch)
        }
    }

    fn bus_write_read(&mut self, addr: u8, data: Vec<u8>, read_len: usize) -> (r: Result<
        Vec<u8>,
        MockError,
    >) {
        if self.position >= self.expected.len() {
            return Err(MockError::Exhausted);
        }
        match &self.expected[self.position] {
            MockTransaction::WriteRead { addr: exp_addr, data: exp_data, resp: exp_resp } => {
                if *exp_addr == addr && *exp_data == data && exp_resp.len() == read_len {
                    let resp: Vec<u8> = clone_bytes(exp_resp);
                    self.position = self.position + 1;
                    proof {
                        self.log@ = self.log@.push(
                            BusOp::WriteRead { addr, data: data@, resp: resp@ },
                        );
                    }
                    Ok(resp)
                } else {
                    Err(MockError::Mismatch)
                }
            },
            _ => Err(MockError::Mismatch),
        }
    }
}

} // verus!
