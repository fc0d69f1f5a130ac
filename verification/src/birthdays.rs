//! Birthday greetings: once a day every employee is told whose birthday it
//! is, with a greeting that differs from one birthday person to the next.
use vstd::prelude::*;
use crate::chat::opt_view;
use crate::text::{concat3, str_eq};

verus! {

/// The greetings, used in turn.
pub open spec fn greeting(i: nat) -> Seq<char> {
    let k = i % 5;
    if k == 0 {
        "Пусть этот год принесёт много ярких моментов, успехов в делах и тепла в кругу близких!"@
    } else if k == 1 {
        "Желаем крепкого здоровья, вдохновения и удачи во всех начинаниях!"@
    } else if k == 2 {
        "Пусть каждый день радует новыми победами и приятными сюрпризами!"@
    } else if k == 3 {
        "Счастья, благополучия и исполнения самых заветных желаний!"@
    } else {
        "Пусть команда всегда будет рядом, а успех сопутствует во всём!"@
    }
}

/// The greeting for the `i`-th birthday person of the day.
pub fn greeting_for(i: usize) -> (g: &'static str)
    ensures
        g@ == greeting(i as nat),
{
    let k = i % 5;
    if k == 0 {
        "Пусть этот год принесёт много ярких моментов, успехов в делах и тепла в кругу близких!"
    } else if k == 1 {
        "Желаем крепкого здоровья, вдохновения и удачи во всех начинаниях!"
    } else if k == 2 {
        "Пусть каждый день радует новыми победами и приятными сюрпризами!"
    } else if k == 3 {
        "Счастья, благополучия и исполнения самых заветных желаний!"
    } else {
        "Пусть команда всегда будет рядом, а успех сопутствует во всём!"
    }
}

/// Someone whose birthday is today.
#[derive(Clone, Debug)]
pub struct BirthdayPerson {
    pub employee_id: String,
    pub full_name: String,
}

/// One birthday notification.
#[derive(Clone, Debug)]
pub struct BirthdayNotice {
    /// Who is told.
    pub recipient: String,
    pub title: String,
    pub body: String,
    /// Whose birthday it is.
    pub about: String,
}

/// A notification, as texts: recipient, title, body, subject.
pub open spec fn notice_text(n: BirthdayNotice) -> (Seq<char>, Seq<char>, Seq<char>, Seq<char>) {
    (n.recipient@, n.title@, n.body@, n.about@)
}

/// The notifications about the `i`-th birthday person: one to every
/// employee among the first `m` of `all` other than that person, in order.
pub open spec fn person_notices(i: nat, p: BirthdayPerson, all: Seq<String>, m: int) -> Seq<
    (Seq<char>, Seq<char>, Seq<char>, Seq<char>),
>
    decreases m,
{
    if m <= 0 || m > all.len() {
        Seq::empty()
    } else {
        let rest = person_notices(i, p, all, m - 1);
        if all[m - 1]@ == p.employee_id@ {
            rest
        } else {
            rest.push(
                (
                    all[m - 1]@,
                    "Сегодня день рождения у "@ + p.full_name@ + "! 🎉"@,
                    greeting(i),
                    p.employee_id@,
                ),
            )
        }
    }
}

/// The notifications about the first `n` birthday people, person by person.
pub open spec fn day_notices(people: Seq<BirthdayPerson>, all: Seq<String>, n: int) -> Seq<
    (Seq<char>, Seq<char>, Seq<char>, Seq<char>),
>
    decreases n,
{
    if n <= 0 || n > people.len() {
        Seq::empty()
    } else {
        day_notices(people, all, n - 1) + person_notices(
            (n - 1) as nat,
            people[n - 1],
            all,
            all.len() as int,
        )
    }
}

/// The day's birthday notifications: none when they were already sent today
/// (`last_sent` is the day they were last sent); otherwise, for each birthday
/// person in turn, one to every other employee.
pub fn birthday_notices(
    today: &str,
    last_sent: Option<&str>,
    people: &Vec<BirthdayPerson>,
    all_employee_ids: &Vec<String>,
) -> (r: Option<Vec<BirthdayNotice>>)
    ensures
        opt_view(last_sent) == Some(today@) ==> r is None,
        opt_view(last_sent) != Some(today@) ==> (r matches Some(v) && v@.map_values(
            |n: BirthdayNotice| notice_text(n),
        ) == day_notices(people@, all_employee_ids@, people@.len() as int)),
{
    let already = match last_sent {
        Some(d) => str_eq(d, today),
        None => false,
    };
    if already {
        return None;
    }
    let mut out: Vec<BirthdayNotice> = Vec::new();
    let mut i: usize = 0;
    while i < people.len()
        invariant
            0 <= i <= people@.len(),
            out@.map_values(|n: BirthdayNotice| notice_text(n)) == day_notices(
                people@,
                all_employee_ids@,
                i as int,
            ),
        decreases people@.len() - i,
    {
        let p = &people[i];
        let title = concat3("Сегодня день рождения у ", p.full_name.as_str(), "! 🎉");
        let body = greeting_for(i);
        let ghost before = out@.map_values(|n: BirthdayNotice| notice_text(n));
        let mut j: usize = 0;
        while j < all_employee_ids.len()
            invariant
                0 <= i < people@.len(),
                p == people@[i as int],
                title@ == "Сегодня день рождения у "@ + p.full_name@ + "! 🎉"@,
                body@ == greeting(i as nat),
                0 <= j <= all_employee_ids@.len(),
                out@.map_values(|n: BirthdayNotice| notice_text(n)) == before + person_notices(
                    i as nat,
                    *p,
                    all_employee_ids@,
                    j as int,
                ),
            decreases all_employee_ids@.len() - j,
        {
            let id = &all_employee_ids[j];
            if !str_eq(id.as_str(), p.employee_id.as_str()) {
                out.push(
                    BirthdayNotice {
                        recipient: id.clone(),
                        title: title.clone(),
                        body: body.to_owned(),
                        about: p.employee_id.clone(),
                    },
                );
                proof {
                    let pn = person_notices(i as nat, *p, all_employee_ids@, j as int);
                    assert(out@.map_values(|n: BirthdayNotice| notice_text(n)) =~= (before + pn).push(
                        (
                            all_employee_ids@[j as int]@,
                            "Сегодня день рождения у "@ + p.full_name@ + "! 🎉"@,
                            greeting(i as nat),
                            p.employee_id@,
                        ),
                    ));
                    assert((before + pn).push(
                        (
                            all_employee_ids@[j as int]@,
                            "Сегодня день рождения у "@ + p.full_name@ + "! 🎉"@,
                            greeting(i as nat),
                            p.employee_id@,
                        ),
                    ) =~= before + pn.push(
                        (
                            all_employee_ids@[j as int]@,
                            "Сегодня день рождения у "@ + p.full_name@ + "! 🎉"@,
                            greeting(i as nat),
                            p.employee_id@,
                        ),
                    ));
                }
            }
            j = j + 1;
        }
        i = i + 1;
    }
    Some(out)
}

/// The notification telling `recipient` about the `i`-th birthday person.
pub open spec fn notice_about(i: nat, p: BirthdayPerson, recipient: Seq<char>) -> (
    Seq<char>,
    Seq<char>,
    Seq<char>,
    Seq<char>,
) {
    (recipient, "Сегодня день рождения у "@ + p.full_name@ + "! 🎉"@, greeting(i), p.employee_id@)
}

proof fn lemma_person_notices(i: nat, p: BirthdayPerson, all: Seq<String>, m: int)
    requires
        0 <= m <= all.len(),
    ensures
        forall|k: int|
            0 <= k < m && all[k]@ != p.employee_id@ ==> #[trigger] person_notices(i, p, all, m).contains(
                notice_about(i, p, all[k]@),
            ),
        forall|x| #[trigger] person_notices(i, p, all, m).contains(x) ==> x.0 != x.3 && x.3
            == p.employee_id@,
    decreases m,
{
    if m > 0 {
        lemma_person_notices(i, p, all, m - 1);
        let rest = person_notices(i, p, all, m - 1);
        if all[m - 1]@ == p.employee_id@ {
            assert(person_notices(i, p, all, m) == rest);
        } else {
            let x = notice_about(i, p, all[m - 1]@);
            assert(person_notices(i, p, all, m) == rest.push(x));
            assert(rest.push(x).last() == x);
            assert forall|k: int|
                0 <= k < m && all[k]@ != p.employee_id@ implies #[trigger] person_notices(i, p, all, m).contains(
                notice_about(i, p, all[k]@),
            ) by {
                if k < m - 1 {
                    assert(rest.contains(notice_about(i, p, all[k]@)));
                    let j = choose|j: int| 0 <= j < rest.len() && rest[j] == notice_about(i, p, all[k]@);
                    assert(rest.push(x)[j] == rest[j]);
                } else {
                    assert(rest.push(x)[rest.len() as int] == x);
                }
            }
            assert forall|y| #[trigger] person_notices(i, p, all, m).contains(y) implies y.0 != y.3 && y.3
                == p.employee_id@ by {
                let j = choose|j: int| 0 <= j < rest.push(x).len() && rest.push(x)[j] == y;
                if j < rest.len() {
                    assert(rest.contains(rest[j]));
                }
            }
        }
    }
}

proof fn lemma_day_notices(people: Seq<BirthdayPerson>, all: Seq<String>, n: int)
    requires
        0 <= n <= people.len(),
    ensures
        forall|i: int, k: int|
            0 <= i < n && 0 <= k < all.len() && all[k]@ != people[i].employee_id@
                ==> #[trigger] day_notices(people, all, n).contains(
                notice_about(i as nat, people[i], #[trigger] all[k]@),
            ),
        forall|x| #[trigger] day_notices(people, all, n).contains(x) ==> x.0 != x.3,
    decreases n,
{
    if n > 0 {
        lemma_day_notices(people, all, n - 1);
        let a = day_notices(people, all, n - 1);
        let b = person_notices((n - 1) as nat, people[n - 1], all, all.len() as int);
        lemma_person_notices((n - 1) as nat, people[n - 1], all, all.len() as int);
        assert(day_notices(people, all, n) == a + b);
        assert forall|i: int, k: int|
            0 <= i < n && 0 <= k < all.len() && all[k]@ != people[i].employee_id@
                implies #[trigger] day_notices(people, all, n).contains(
                notice_about(i as nat, people[i], #[trigger] all[k]@),
            ) by {
            let x = notice_about(i as nat, people[i], all[k]@);
            if i < n - 1 {
                assert(a.contains(x));
                let j = choose|j: int| 0 <= j < a.len() && a[j] == x;
                assert((a + b)[j] == x);
            } else {
                assert(b.contains(x));
                let j = choose|j: int| 0 <= j < b.len() && b[j] == x;
                assert((a + b)[a.len() + j] == x);
            }
        }
        assert forall|x| #[trigger] day_notices(people, all, n).contains(x) implies x.0 != x.3 by {
            let j = choose|j: int| 0 <= j < (a + b).len() && (a + b)[j] == x;
            if j < a.len() {
                assert(a.contains(a[j]));
            } else {
                assert(b.contains(b[j - a.len()]));
            }
        }
    }
}

/// On a day's first run, every employee other than a birthday person is
/// told about that person, with that person's greeting, and nobody is told
/// about their own birthday.
pub proof fn law_everyone_hears_of_birthdays(people: Seq<BirthdayPerson>, all: Seq<String>)
    ensures
        forall|i: int, k: int|
            0 <= i < people.len() && 0 <= k < all.len() && all[k]@ != people[i].employee_id@
                ==> #[trigger] day_notices(people, all, people.len() as int).contains(
                notice_about(i as nat, people[i], #[trigger] all[k]@),
            ),
        forall|x| #[trigger] day_notices(people, all, people.len() as int).contains(x) ==> x.0 != x.3,
{
    lemma_day_notices(people, all, people.len() as int);
}

/// How many of the notifications tell `recipient` about `subject`.
pub open spec fn told_count(
    s: Seq<(Seq<char>, Seq<char>, Seq<char>, Seq<char>)>,
    recipient: Seq<char>,
    subject: Seq<char>,
) -> nat
    decreases s.len(),
{
    if s.len() == 0 {
        0
    } else {
        told_count(s.drop_last(), recipient, subject) + (if s.last().0 == recipient && s.last().3
            == subject {
            1nat
        } else {
            0nat
        })
    }
}

proof fn lemma_told_count_add(
    x: Seq<(Seq<char>, Seq<char>, Seq<char>, Seq<char>)>,
    y: Seq<(Seq<char>, Seq<char>, Seq<char>, Seq<char>)>,
    r: Seq<char>,
    a: Seq<char>,
)
    ensures
        told_count(x + y, r, a) == told_count(x, r, a) + told_count(y, r, a),
    decreases y.len(),
{
    if y.len() == 0 {
        assert(x + y =~= x);
    } else {
        lemma_told_count_add(x, y.drop_last(), r, a);
        assert((x + y).drop_last() =~= x + y.drop_last());
        assert((x + y).last() == y.last());
    }
}

/// The ids in `ids` are all different.
pub open spec fn distinct_ids(ids: Seq<String>) -> bool {
    forall|x: int, y: int| 0 <= x < y < ids.len() ==> ids[x]@ != ids[y]@
}

/// The birthday people are all different.
pub open spec fn distinct_people(people: Seq<BirthdayPerson>) -> bool {
    forall|x: int, y: int| 0 <= x < y < people.len() ==> people[x].employee_id@ != people[y].employee_id@
}

/// Whether `r` is among the first `m` ids.
pub open spec fn listed_upto(all: Seq<String>, m: int, r: Seq<char>) -> bool {
    exists|k: int| 0 <= k < m && all[k]@ == r
}

proof fn lemma_person_told_count(i: nat, p: BirthdayPerson, all: Seq<String>, m: int, r: Seq<char>, a: Seq<char>)
    requires
        0 <= m <= all.len(),
        distinct_ids(all),
    ensures
        told_count(person_notices(i, p, all, m), r, a) == (if a == p.employee_id@ && r != a
            && listed_upto(all, m, r) {
            1nat
        } else {
            0nat
        }),
    decreases m,
{
    if m > 0 {
        lemma_person_told_count(i, p, all, m - 1, r, a);
        let rest = person_notices(i, p, all, m - 1);
        if all[m - 1]@ == r {
            assert(listed_upto(all, m, r));
            assert(!listed_upto(all, m - 1, r)) by {
                if listed_upto(all, m - 1, r) {
                    let k = choose|k: int| 0 <= k < m - 1 && all[k]@ == r;
                    assert(all[k]@ != all[m - 1]@);
                }
            }
        } else {
            assert(listed_upto(all, m, r) == listed_upto(all, m - 1, r)) by {
                if listed_upto(all, m, r) {
                    let k = choose|k: int| 0 <= k < m && all[k]@ == r;
                    assert(0 <= k < m - 1);
                }
            }
        }
        if all[m - 1]@ == p.employee_id@ {
            assert(person_notices(i, p, all, m) == rest);
        } else {
            let x = notice_about(i, p, all[m - 1]@);
            assert(person_notices(i, p, all, m) == rest.push(x));
            assert(rest.push(x).drop_last() =~= rest);
        }
    } else {
        assert(!listed_upto(all, m, r));
    }
}

/// Whether one of the first `n` birthday people is `a`.
pub open spec fn among_people(people: Seq<BirthdayPerson>, n: int, a: Seq<char>) -> bool {
    exists|i: int| 0 <= i < n && people[i].employee_id@ == a
}

proof fn lemma_day_told_count(people: Seq<BirthdayPerson>, all: Seq<String>, n: int, r: Seq<char>, a: Seq<char>)
    requires
        0 <= n <= people.len(),
        distinct_ids(all),
        distinct_people(people),
    ensures
        told_count(day_notices(people, all, n), r, a) == (if among_people(people, n, a) && r != a
            && listed_upto(all, all.len() as int, r) {
            1nat
        } else {
            0nat
        }),
    decreases n,
{
    if n > 0 {
        lemma_day_told_count(people, all, n - 1, r, a);
        let p = people[n - 1];
        lemma_person_told_count((n - 1) as nat, p, all, all.len() as int, r, a);
        lemma_told_count_add(
            day_notices(people, all, n - 1),
            person_notices((n - 1) as nat, p, all, all.len() as int),
            r,
            a,
        );
        if p.employee_id@ == a {
            assert(among_people(people, n, a));
            assert(!among_people(people, n - 1, a)) by {
                if among_people(people, n - 1, a) {
                    let j = choose|j: int| 0 <= j < n - 1 && people[j].employee_id@ == a;
                    assert(people[j].employee_id@ != people[n - 1].employee_id@);
                }
            }
        } else {
            assert(among_people(people, n, a) == among_people(people, n - 1, a)) by {
                if among_people(people, n, a) {
                    let j = choose|j: int| 0 <= j < n && people[j].employee_id@ == a;
                    assert(0 <= j < n - 1);
                }
            }
        }
    } else {
        assert(!among_people(people, n, a));
    }
}

/// With every employee and every birthday person listed once, each employee
/// other than a birthday person gets exactly one notification about that
/// person on the day's first run.
pub proof fn law_one_notice_per_birthday(people: Seq<BirthdayPerson>, all: Seq<String>, i: int, k: int)
    requires
        distinct_ids(all),
        distinct_people(people),
        0 <= i < people.len(),
        0 <= k < all.len(),
        all[k]@ != people[i].employee_id@,
    ensures
        told_count(day_notices(people, all, people.len() as int), all[k]@, people[i].employee_id@)
            == 1,
{
    lemma_day_told_count(people, all, people.len() as int, all[k]@, people[i].employee_id@);
    assert(among_people(people, people.len() as int, people[i].employee_id@));
    assert(listed_upto(all, all.len() as int, all[k]@));
}

} // verus!
