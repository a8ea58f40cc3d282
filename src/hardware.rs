use vstd::prelude::*;

verus! {

/// Static facts about the machine, reported at registration.
#[derive(Debug, Clone)]
pub struct HardwareInfo {
    pub cpu_serial: String,
    pub gpu_uuid: Option<String>,
    pub system_fingerprint: String,
    pub gpu_model: Option<String>,
    pub gpu_memory: Option<u64>,
    pub cuda_version: Option<String>,
    pub driver_version: Option<String>,
}

/// Current GPU telemetry.
#[derive(Debug, Clone)]
pub struct GpuMetrics {
    pub utilization: u8,
    pub memory_used: u64,
    pub temperature: u8,
    pub timestamp: String,
}

/// The decimal digit character of `d < 10`.
pub open spec fn digit_char(d: nat) -> char {
    if d == 0 { '0' } else if d == 1 { '1' } else if d == 2 { '2' } else if d == 3 { '3' } else if d == 4 { '4' }
    else if d == 5 { '5' } else if d == 6 { '6' } else if d == 7 { '7' } else if d == 8 { '8' } else { '9' }
}

/// The decimal numeral of `n`, without leading zeros.
pub open spec fn decimal(n: nat) -> Seq<char>
    decreases n,
{
    if n < 10 {
        seq![digit_char(n)]
    } else {
        decimal(n / 10).push(digit_char(n % 10))
    }
}

fn digit_str(d: u64) -> (r: &'static str)
    requires
        d < 10,
    ensures
        r@ == seq![digit_char(d as nat)],
{
    proof {
        reveal_strlit("0");
        reveal_strlit("1");
        reveal_strlit("2");
        reveal_strlit("3");
        reveal_strlit("4");
        reveal_strlit("5");
        reveal_strlit("6");
        reveal_strlit("7");
        reveal_strlit("8");
        reveal_strlit("9");
    }
    let r = if d == 0 { "0" } else if d == 1 { "1" } else if d == 2 { "2" } else if d == 3 { "3" } else if d == 4 { "4" }
    else if d == 5 { "5" } else if d == 6 { "6" } else if d == 7 { "7" } else if d == 8 { "8" } else { "9" };
    assert(r@ =~= seq![digit_char(d as nat)]);
    r
}

/// The decimal numeral of `n`.
pub fn decimal_string(n: u64) -> (r: String)
    ensures
        r@ == decimal(n as nat),
    decreases n,
{
    if n < 10 {
        String::from_str(digit_str(n))
    } else {
        let head = decimal_string(n / 10);
        let r = head.concat(digit_str(n % 10));
        assert(r@ =~= decimal(n as nat));
        r
    }
}

/// The system fingerprint: `CPU;{brand};MEM;{total_memory};OS;{os}`.
pub open spec fn system_fingerprint(cpu_brand: Seq<char>, total_memory: u64, os: Seq<char>) -> Seq<char> {
    "CPU;"@ + cpu_brand + ";MEM;"@ + decimal(total_memory as nat) + ";OS;"@ + os
}

/// Builds the system fingerprint from the first CPU's brand, the total
/// memory, and the operating system's name.
pub fn generate_system_fingerprint(cpu_brand: &str, total_memory: u64, os: &str) -> (r: String)
    ensures
        r@ == system_fingerprint(cpu_brand@, total_memory, os@),
{
    let mem = decimal_string(total_memory);
    String::from_str("CPU;").concat(cpu_brand).concat(";MEM;").concat(mem.as_str()).concat(";OS;").concat(os)
}

} // verus!
