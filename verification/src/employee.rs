//! Employees, and the generator that hires them.
use vstd::prelude::*;

use crate::error::ConfigError;
use crate::random::RandomSource;

verus! {

/// The largest national id number: eleven digits.
pub const MAX_PESEL: u64 = 99_999_999_999;

/// The largest account number: twenty-four digits.
pub const MAX_ACCOUNT_NUMBER: u128 = 999_999_999_999_999_999_999_999;

/// An employee. The salary is in hundredths of the currency unit. An
/// employee is never changed once hired.
#[derive(Debug)]
pub struct Employee {
    pub id: usize,
    pub name: String,
    pub surname: String,
    pub pesel: u64,
    pub account_number: u128,
    pub salary: u64,
}

impl Employee {
    /// An employee with the given record; the names are copied.
    pub fn new(
        id: usize,
        name: &str,
        surname: &str,
        pesel: u64,
        account_number: u128,
        salary: u64,
    ) -> (employee: Self)
        ensures
            employee.id == id,
            employee.name@ == name@,
            employee.surname@ == surname@,
            employee.pesel == pesel,
            employee.account_number == account_number,
            employee.salary == salary,
    {
        Employee {
            id,
            name: name.to_owned(),
            surname: surname.to_owned(),
            pesel,
            account_number,
            salary,
        }
    }
}

/// Every employee is identified by its position.
pub open spec fn employees_wf(employees: Seq<Employee>) -> bool {
    forall|i: int| 0 <= i < employees.len() ==> (#[trigger] employees[i]).id == i
}

/// `id` is the id of one of `employees`.
pub open spec fn is_employee_id(id: usize, employees: Seq<Employee>) -> bool {
    exists|e: int| 0 <= e < employees.len() && (#[trigger] employees[e]).id == id
}

/// `text` is one of `pool`.
pub open spec fn is_from_pool(text: Seq<char>, pool: Seq<&str>) -> bool {
    exists|n: int| 0 <= n < pool.len() && (#[trigger] pool[n])@ == text
}

/// The refusal, if any, with which `expand_employee_vec` answers.
pub open spec fn expand_employee_error(
    names: Seq<&str>,
    surnames: Seq<&str>,
    salary_min: int,
    salary_max: int,
) -> Option<ConfigError> {
    if names.len() == 0 || surnames.len() == 0 {
        Some(ConfigError::EmptyPool)
    } else if salary_min >= salary_max {
        Some(ConfigError::InvalidRange)
    } else {
        None
    }
}

/// `grown` is `before` followed by `count` new employees, each identified
/// by its position, named from the pools, with numbers of the right length
/// and a salary from `salary_min` up to, but not reaching, `salary_max`.
pub open spec fn employees_expanded(
    before: Seq<Employee>,
    grown: Seq<Employee>,
    count: int,
    names: Seq<&str>,
    surnames: Seq<&str>,
    salary_min: int,
    salary_max: int,
) -> bool {
    &&& grown.len() == before.len() + count
    &&& before.is_prefix_of(grown)
    &&& forall|i: int|
        before.len() <= i < grown.len() ==> {
            &&& (#[trigger] grown[i]).id == i
            &&& is_from_pool(grown[i].name@, names)
            &&& is_from_pool(grown[i].surname@, surnames)
            &&& grown[i].pesel <= MAX_PESEL
            &&& grown[i].account_number <= MAX_ACCOUNT_NUMBER
            &&& salary_min <= grown[i].salary < salary_max
        }
}

fn random_pesel(rng: &mut RandomSource) -> (pesel: u64)
    ensures
        pesel <= MAX_PESEL,
{
    match rng.uniform_inclusive(0, MAX_PESEL) {
        Ok(pesel) => pesel,
        Err(_) => 0,
    }
}

fn random_account_number(rng: &mut RandomSource) -> (number: u128)
    ensures
        number <= MAX_ACCOUNT_NUMBER,
{
    match rng.uniform_inclusive_wide(0, MAX_ACCOUNT_NUMBER) {
        Ok(number) => number,
        Err(_) => 0,
    }
}

/// Hires `count` employees. Name and surname are drawn independently and
/// uniformly from their pools, the two numbers uniformly from all numbers of
/// their length, the salary uniformly from `salary_min` up to, but not
/// reaching, `salary_max`. Refuses, before anything is drawn, an empty pool
/// and an empty or inverted salary range.
pub fn expand_employee_vec(
    rng: &mut RandomSource,
    employees: &mut Vec<Employee>,
    count: usize,
    names: &[&str],
    surnames: &[&str],
    salary_min: u64,
    salary_max: u64,
) -> (outcome: Result<(), ConfigError>)
    ensures
        outcome is Err <==> expand_employee_error(
            names@,
            surnames@,
            salary_min as int,
            salary_max as int,
        ) is Some,
        outcome is Err ==> Some(outcome->Err_0) == expand_employee_error(
            names@,
            surnames@,
            salary_min as int,
            salary_max as int,
        ) && final(employees)@ == old(employees)@ && *final(rng) == *old(rng),
        outcome is Ok ==> employees_expanded(
            old(employees)@,
            final(employees)@,
            count as int,
            names@,
            surnames@,
            salary_min as int,
            salary_max as int,
        ),
        employees_wf(old(employees)@) ==> employees_wf(final(employees)@),
{
    if names.len() == 0 || surnames.len() == 0 {
        return Err(ConfigError::EmptyPool);
    }
    if salary_min >= salary_max {
        return Err(ConfigError::InvalidRange);
    }
    let ghost before = employees@;
    let mut made: usize = 0;
    while made < count
        invariant
            made <= count,
            names@.len() > 0,
            surnames@.len() > 0,
            salary_min < salary_max,
            employees_expanded(
                before,
                employees@,
                made as int,
                names@,
                surnames@,
                salary_min as int,
                salary_max as int,
            ),
            employees_wf(before) ==> employees_wf(employees@),
        decreases count - made,
    {
        let name: &str = match rng.pick(names) {
            Ok(name) => *name,
            Err(_) => names[0],
        };
        let surname: &str = match rng.pick(surnames) {
            Ok(surname) => *surname,
            Err(_) => surnames[0],
        };
        let pesel = random_pesel(rng);
        let account_number = random_account_number(rng);
        let salary = match rng.uniform_below(salary_min, salary_max) {
            Ok(salary) => salary,
            Err(_) => salary_min,
        };
        let id = employees.len();
        employees.push(Employee::new(id, name, surname, pesel, account_number, salary));
        made = made + 1;
    }
    Ok(())
}

} // verus!
