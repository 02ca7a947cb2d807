//! Containers and system services, read from the listings that the
//! container engine and the service managers print.

use vstd::prelude::*;

use crate::table::{cells, column, columns_view, Cell, Column, ColumnType, Record, Value};
use crate::text::{
    chars_of, join_from, join_words, lines, lines_of, pieces_view, same_text, split_chars,
    split_on, strip_suffixes, text_of_all, trim_suffixes, words, words_of,
};

verus! {

/// One container, as its listing line gives it.
#[derive(Debug)]
pub struct ContainerInfo {
    pub id: String,
    pub name: String,
    pub image: String,
    pub status: String,
    pub state: String,
    pub created: String,
}

impl View for ContainerInfo {
    type V = Seq<Seq<char>>;

    open spec fn view(&self) -> Seq<Seq<char>> {
        seq![self.id@, self.name@, self.image@, self.status@, self.state@, self.created@]
    }
}

/// The fields of a container listing line: the line cut at each `|`, where
/// it has at least six pieces; the first six are id, name, image, status,
/// state and creation time.
pub open spec fn container_fields(line: Seq<char>) -> Option<Seq<Seq<char>>> {
    let parts = split_on(line, '|');
    if parts.len() >= 6 {
        Some(parts.subrange(0, 6))
    } else {
        None
    }
}

/// The containers that a listing gives, one per line with enough fields, in
/// order; other lines are skipped.
pub open spec fn containers_of(text: Seq<char>) -> Seq<Seq<Seq<char>>> {
    lines_of(text).filter_map(|l: Seq<char>| container_fields(l))
}

/// The containers that a listing gives, in order.
pub fn parse_containers(text: &str) -> (r: Vec<ContainerInfo>)
    ensures
        r@.map_values(|c: ContainerInfo| c@) == containers_of(text@),
{
    let cs = chars_of(text);
    let ls = lines(&cs);
    let ghost all = pieces_view(ls@);
    let mut out: Vec<ContainerInfo> = Vec::new();
    for i in 0..ls.len()
        invariant
            all == pieces_view(ls@),
            all == lines_of(text@),
            out@.map_values(|c: ContainerInfo| c@) == all.take(i as int).filter_map(
                |l: Seq<char>| container_fields(l),
            ),
    {
        assert(all.take(i + 1).drop_last() =~= all.take(i as int));
        assert(all.take(i + 1).last() == ls@[i as int]@);
        let parts = split_chars(&ls[i], '|');
        if parts.len() >= 6 {
            let c = ContainerInfo {
                id: text_of_all(&parts[0]),
                name: text_of_all(&parts[1]),
                image: text_of_all(&parts[2]),
                status: text_of_all(&parts[3]),
                state: text_of_all(&parts[4]),
                created: text_of_all(&parts[5]),
            };
            proof {
                let f = container_fields(ls@[i as int]@);
                assert(f is Some);
                assert(c@ =~= f->0);
            }
            out.push(c);
            assert(out@.map_values(|c: ContainerInfo| c@) =~= all.take(i + 1).filter_map(
                |l: Seq<char>| container_fields(l),
            ));
        } else {
            assert(out@.map_values(|c: ContainerInfo| c@) =~= all.take(i + 1).filter_map(
                |l: Seq<char>| container_fields(l),
            ));
        }
    }
    assert(all.take(all.len() as int) =~= all);
    out
}

impl Record for ContainerInfo {
    open spec fn spec_schema() -> Seq<(Seq<char>, ColumnType)> {
        seq![
            ("id"@, ColumnType::Varchar),
            ("name"@, ColumnType::Varchar),
            ("image"@, ColumnType::Varchar),
            ("status"@, ColumnType::Varchar),
            ("state"@, ColumnType::Varchar),
            ("created"@, ColumnType::Varchar),
        ]
    }

    open spec fn spec_row(&self) -> Seq<Cell> {
        seq![
            Cell::Text(self.id@),
            Cell::Text(self.name@),
            Cell::Text(self.image@),
            Cell::Text(self.status@),
            Cell::Text(self.state@),
            Cell::Text(self.created@),
        ]
    }

    fn schema() -> (r: Vec<Column>) {
        let r = vec![
            column("id", ColumnType::Varchar),
            column("name", ColumnType::Varchar),
            column("image", ColumnType::Varchar),
            column("status", ColumnType::Varchar),
            column("state", ColumnType::Varchar),
            column("created", ColumnType::Varchar),
        ];
        assert(columns_view(r@) =~= Self::spec_schema());
        r
    }

    fn row(&self) -> (r: Vec<Value>) {
        let r = vec![
            Value::Text(self.id.clone()),
            Value::Text(self.name.clone()),
            Value::Text(self.image.clone()),
            Value::Text(self.status.clone()),
            Value::Text(self.state.clone()),
            Value::Text(self.created.clone()),
        ];
        assert(cells(r@) =~= self.spec_row());
        r
    }
}

/// One system service.
#[derive(Debug)]
pub struct ServiceInfo {
    pub name: String,
    pub status: String,
    pub description: String,
}

impl View for ServiceInfo {
    type V = Seq<Seq<char>>;

    open spec fn view(&self) -> Seq<Seq<char>> {
        seq![self.name@, self.status@, self.description@]
    }
}

/// The lines of a listing after its header line.
pub open spec fn after_header(ls: Seq<Seq<char>>) -> Seq<Seq<char>> {
    if ls.len() == 0 {
        ls
    } else {
        ls.drop_first()
    }
}

/// The service that a line of systemd's unit listing gives, where it has
/// at least four words: the unit name without its `.service` endings, the
/// fourth word as status, and the words after that as description.
pub open spec fn systemd_unit(line: Seq<char>) -> Option<Seq<Seq<char>>> {
    let w = words_of(line);
    if w.len() >= 4 {
        Some(seq![strip_suffixes(w[0], ".service"@), w[3], join_words(w.subrange(4, w.len() as int))])
    } else {
        None
    }
}

/// The services that systemd's unit listing gives, in order: one per line
/// after the header, skipping lines with too few words.
pub open spec fn systemd_services(text: Seq<char>) -> Seq<Seq<Seq<char>>> {
    after_header(lines_of(text)).filter_map(|l: Seq<char>| systemd_unit(l))
}

/// The service that a line of launchd's job listing gives, where it has at
/// least three words: the third word as name, `inactive` where the first
/// word is `-` and `running` otherwise, and no description.
pub open spec fn launchd_job(line: Seq<char>) -> Option<Seq<Seq<char>>> {
    let w = words_of(line);
    if w.len() >= 3 {
        Some(
            seq![
                w[2],
                if w[0] == "-"@ {
                    "inactive"@
                } else {
                    "running"@
                },
                Seq::empty(),
            ],
        )
    } else {
        None
    }
}

/// The services that launchd's job listing gives, in order: one per line
/// after the header, skipping lines with too few words.
pub open spec fn launchd_services(text: Seq<char>) -> Seq<Seq<Seq<char>>> {
    after_header(lines_of(text)).filter_map(|l: Seq<char>| launchd_job(l))
}

/// The service for one line of systemd's unit listing, if it has one.
fn systemd_line(line: &Vec<char>) -> (r: Option<ServiceInfo>)
    ensures
        match r {
            Some(sv) => systemd_unit(line@) == Some(sv@),
            None => systemd_unit(line@) is None,
        },
{
    let w = words(line);
    if w.len() < 4 {
        return None;
    }
    let sv = ServiceInfo {
        name: trim_suffixes(&w[0], &chars_of(".service")),
        status: text_of_all(&w[3]),
        description: join_from(&w, 4),
    };
    assert(sv@ =~= systemd_unit(line@)->0);
    Some(sv)
}

/// The service for one line of launchd's job listing, if it has one.
fn launchd_line(line: &Vec<char>) -> (r: Option<ServiceInfo>)
    ensures
        match r {
            Some(sv) => launchd_job(line@) == Some(sv@),
            None => launchd_job(line@) is None,
        },
{
    let w = words(line);
    if w.len() < 3 {
        return None;
    }
    let first = text_of_all(&w[0]);
    let status = if same_text(first.as_str(), "-") {
        String::from_str("inactive")
    } else {
        String::from_str("running")
    };
    let sv = ServiceInfo { name: text_of_all(&w[2]), status, description: String::new() };
    assert(sv@ =~= launchd_job(line@)->0);
    Some(sv)
}

/// The services that systemd's unit listing gives, in order.
pub fn parse_systemd_units(text: &str) -> (r: Vec<ServiceInfo>)
    ensures
        r@.map_values(|s: ServiceInfo| s@) == systemd_services(text@),
{
    let cs = chars_of(text);
    let ls = lines(&cs);
    let ghost all = pieces_view(ls@);
    let mut out: Vec<ServiceInfo> = Vec::new();
    if ls.len() == 0 {
        assert(out@.map_values(|s: ServiceInfo| s@) =~= systemd_services(text@));
        return out;
    }
    let ghost body = all.drop_first();
    for i in 1..ls.len()
        invariant
            all == pieces_view(ls@),
            all == lines_of(text@),
            all.len() > 0,
            body == all.drop_first(),
            out@.map_values(|s: ServiceInfo| s@) == body.take(i - 1).filter_map(
                |l: Seq<char>| systemd_unit(l),
            ),
    {
        assert(body.take(i as int).drop_last() =~= body.take(i - 1));
        assert(body.take(i as int).last() == ls@[i as int]@);
        match systemd_line(&ls[i]) {
            Some(sv) => {
                out.push(sv);
            },
            None => {},
        }
        assert(out@.map_values(|s: ServiceInfo| s@) =~= body.take(i as int).filter_map(
            |l: Seq<char>| systemd_unit(l),
        ));
    }
    assert(body.take(body.len() as int) =~= body);
    out
}

/// The services that launchd's job listing gives, in order.
pub fn parse_launchd_jobs(text: &str) -> (r: Vec<ServiceInfo>)
    ensures
        r@.map_values(|s: ServiceInfo| s@) == launchd_services(text@),
{
    let cs = chars_of(text);
    let ls = lines(&cs);
    let ghost all = pieces_view(ls@);
    let mut out: Vec<ServiceInfo> = Vec::new();
    if ls.len() == 0 {
        assert(out@.map_values(|s: ServiceInfo| s@) =~= launchd_services(text@));
        return out;
    }
    let ghost body = all.drop_first();
    for i in 1..ls.len()
        invariant
            all == pieces_view(ls@),
            all == lines_of(text@),
            all.len() > 0,
            body == all.drop_first(),
            out@.map_values(|s: ServiceInfo| s@) == body.take(i - 1).filter_map(
                |l: Seq<char>| launchd_job(l),
            ),
    {
        assert(body.take(i as int).drop_last() =~= body.take(i - 1));
        assert(body.take(i as int).last() == ls@[i as int]@);
        match launchd_line(&ls[i]) {
            Some(sv) => {
                out.push(sv);
            },
            None => {},
        }
        assert(out@.map_values(|s: ServiceInfo| s@) =~= body.take(i as int).filter_map(
            |l: Seq<char>| launchd_job(l),
        ));
    }
    assert(body.take(body.len() as int) =~= body);
    out
}

impl Record for ServiceInfo {
    open spec fn spec_schema() -> Seq<(Seq<char>, ColumnType)> {
        seq![
            ("name"@, ColumnType::Varchar),
            ("status"@, ColumnType::Varchar),
            ("description"@, ColumnType::Varchar),
        ]
    }

    open spec fn spec_row(&self) -> Seq<Cell> {
        seq![Cell::Text(self.name@), Cell::Text(self.status@), Cell::Text(self.description@)]
    }

    fn schema() -> (r: Vec<Column>) {
        let r = vec![
            column("name", ColumnType::Varchar),
            column("status", ColumnType::Varchar),
            column("description", ColumnType::Varchar),
        ];
        assert(columns_view(r@) =~= Self::spec_schema());
        r
    }

    fn row(&self) -> (r: Vec<Value>) {
        let r = vec![
            Value::Text(self.name.clone()),
            Value::Text(self.status.clone()),
            Value::Text(self.description.clone()),
        ];
        assert(cells(r@) =~= self.spec_row());
        r
    }
}

} // verus!
