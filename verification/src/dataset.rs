//! The reference list of timezone abbreviations.
//!
//! One entry per line: the abbreviation, a tab, a label, a tab, and `UTC`
//! followed by an offset token. Where zones share an abbreviation, the
//! preferred one stands first.

use vstd::prelude::*;

verus! {

/// The reference list, in the form that `AbbreviationTable::from_dataset` reads.
pub const REFERENCE_DATASET: &'static str = "\
# Timezone abbreviations and their offsets from UTC.\n\
# Abbreviations are ambiguous; the first entry of an abbreviation is the one in use.\n\
\n\
ACDT \tAustralian Central Daylight Saving Time \tUTC+10:30\n\
ACST \tAustralian Central Standard Time \tUTC+09:30\n\
ACT \tAcre Time \tUTC\u{2212}05\n\
ACWST \tAustralian Central Western Standard Time \tUTC+08:45\n\
ADT \tAtlantic Daylight Time \tUTC\u{2212}03\n\
AEDT \tAustralian Eastern Daylight Saving Time \tUTC+11\n\
AEST \tAustralian Eastern Standard Time \tUTC+10\n\
AFT \tAfghanistan Time \tUTC+04:30\n\
AKDT \tAlaska Daylight Time \tUTC\u{2212}08\n\
AKST \tAlaska Standard Time \tUTC\u{2212}09\n\
ALMT \tAlma-Ata Time \tUTC+06\n\
AMST \tAmazon Summer Time \tUTC\u{2212}03\n\
AMT \tAmazon Time \tUTC\u{2212}04\n\
AMT \tArmenia Time \tUTC+04\n\
ANAT \tAnadyr Time \tUTC+12\n\
AQTT \tAqtobe Time \tUTC+05\n\
ART \tArgentina Time \tUTC\u{2212}03\n\
AST \tAtlantic Standard Time \tUTC\u{2212}04\n\
AST \tArabia Standard Time \tUTC+03\n\
AWST \tAustralian Western Standard Time \tUTC+08\n\
AZOST \tAzores Summer Time \tUTC\u{b1}00\n\
AZOT \tAzores Standard Time \tUTC\u{2212}01\n\
AZT \tAzerbaijan Time \tUTC+04\n\
BNT \tBrunei Time \tUTC+08\n\
BIOT \tBritish Indian Ocean Time \tUTC+06\n\
BIT \tBaker Island Time \tUTC\u{2212}12\n\
BOT \tBolivia Time \tUTC\u{2212}04\n\
BRST \tBrasilia Summer Time \tUTC\u{2212}02\n\
BRT \tBrasilia Time \tUTC\u{2212}03\n\
BST \tBritish Summer Time \tUTC+01\n\
BST \tBangladesh Standard Time \tUTC+06\n\
BST \tBougainville Standard Time \tUTC+11\n\
BTT \tBhutan Time \tUTC+06\n\
CAT \tCentral Africa Time \tUTC+02\n\
CCT \tCocos Islands Time \tUTC+06:30\n\
CDT \tCentral Daylight Time \tUTC\u{2212}05\n\
CDT \tCuba Daylight Time \tUTC\u{2212}04\n\
CEST \tCentral European Summer Time \tUTC+02\n\
CET \tCentral European Time \tUTC+01\n\
CHADT \tChatham Daylight Time \tUTC+13:45\n\
CHAST \tChatham Standard Time \tUTC+12:45\n\
CHOT \tChoibalsan Standard Time \tUTC+08\n\
CHOST \tChoibalsan Summer Time \tUTC+09\n\
CHST \tChamorro Standard Time \tUTC+10\n\
CHUT \tChuuk Time \tUTC+10\n\
CIST \tClipperton Island Standard Time \tUTC\u{2212}08\n\
CKT \tCook Island Time \tUTC\u{2212}10\n\
CLST \tChile Summer Time \tUTC\u{2212}03\n\
CLT \tChile Standard Time \tUTC\u{2212}04\n\
COST \tColombia Summer Time \tUTC\u{2212}04\n\
COT \tColombia Time \tUTC\u{2212}05\n\
CST \tCentral Standard Time \tUTC\u{2212}06\n\
CST \tChina Standard Time \tUTC+08\n\
CST \tCuba Standard Time \tUTC\u{2212}05\n\
CVT \tCape Verde Time \tUTC\u{2212}01\n\
CWST \tCentral Western Standard Time \tUTC+08:45\n\
CXT \tChristmas Island Time \tUTC+07\n\
DAVT \tDavis Time \tUTC+07\n\
DDUT \tDumont d'Urville Time \tUTC+10\n\
DFT \tAIX-specific equivalent of Central European Time \tUTC+01\n\
EASST \tEaster Island Summer Time \tUTC\u{2212}05\n\
EAST \tEaster Island Standard Time \tUTC\u{2212}06\n\
EAT \tEast Africa Time \tUTC+03\n\
ECT \tEastern Caribbean Time \tUTC\u{2212}04\n\
ECT \tEcuador Time \tUTC\u{2212}05\n\
EDT \tEastern Daylight Time \tUTC\u{2212}04\n\
EEST \tEastern European Summer Time \tUTC+03\n\
EET \tEastern European Time \tUTC+02\n\
EGST \tEastern Greenland Summer Time \tUTC\u{b1}00\n\
EGT \tEastern Greenland Time \tUTC\u{2212}01\n\
EST \tEastern Standard Time \tUTC\u{2212}05\n\
FET \tFurther-eastern European Time \tUTC+03\n\
FJT \tFiji Time \tUTC+12\n\
FKST \tFalkland Islands Summer Time \tUTC\u{2212}03\n\
FKT \tFalkland Islands Time \tUTC\u{2212}04\n\
FNT \tFernando de Noronha Time \tUTC\u{2212}02\n\
GALT \tGalapagos Time \tUTC\u{2212}06\n\
GAMT \tGambier Islands Time \tUTC\u{2212}09\n\
GET \tGeorgia Standard Time \tUTC+04\n\
GFT \tFrench Guiana Time \tUTC\u{2212}03\n\
GILT \tGilbert Island Time \tUTC+12\n\
GIT \tGambier Island Time \tUTC\u{2212}09\n\
GMT \tGreenwich Mean Time \tUTC\u{b1}00\n\
GST \tGulf Standard Time \tUTC+04\n\
GST \tSouth Georgia and the South Sandwich Islands Time \tUTC\u{2212}02\n\
GYT \tGuyana Time \tUTC\u{2212}04\n\
HDT \tHawaii-Aleutian Daylight Time \tUTC\u{2212}09\n\
HAEC \tHeure Avancee d'Europe Centrale \tUTC+02\n\
HST \tHawaii-Aleutian Standard Time \tUTC\u{2212}10\n\
HKT \tHong Kong Time \tUTC+08\n\
HMT \tHeard and McDonald Islands Time \tUTC+05\n\
HOVST \tHovd Summer Time \tUTC+08\n\
HOVT \tHovd Time \tUTC+07\n\
ICT \tIndochina Time \tUTC+07\n\
IDLW \tInternational Date Line West \tUTC\u{2212}12\n\
IDT \tIsrael Daylight Time \tUTC+03\n\
IOT \tIndian Ocean Time \tUTC+03\n\
IRDT \tIran Daylight Time \tUTC+04:30\n\
IRKT \tIrkutsk Time \tUTC+08\n\
IRST \tIran Standard Time \tUTC+03:30\n\
IST \tIndian Standard Time \tUTC+05:30\n\
IST \tIrish Standard Time \tUTC+01\n\
IST \tIsrael Standard Time \tUTC+02\n\
JST \tJapan Standard Time \tUTC+09\n\
KALT \tKaliningrad Time \tUTC+02\n\
KGT \tKyrgyzstan Time \tUTC+06\n\
KOST \tKosrae Time \tUTC+11\n\
KRAT \tKrasnoyarsk Time \tUTC+07\n\
KST \tKorea Standard Time \tUTC+09\n\
LHST \tLord Howe Standard Time \tUTC+10:30\n\
LINT \tLine Islands Time \tUTC+14\n\
MAGT \tMagadan Time \tUTC+12\n\
MART \tMarquesas Islands Time \tUTC\u{2212}09:30\n\
MAWT \tMawson Station Time \tUTC+05\n\
MDT \tMountain Daylight Time \tUTC\u{2212}06\n\
MET \tMiddle European Time \tUTC+01\n\
MEST \tMiddle European Summer Time \tUTC+02\n\
MHT \tMarshall Islands Time \tUTC+12\n\
MIST \tMacquarie Island Station Time \tUTC+11\n\
MIT \tMarquesas Islands Time \tUTC\u{2212}09:30\n\
MMT \tMyanmar Standard Time \tUTC+06:30\n\
MSK \tMoscow Time \tUTC+03\n\
MST \tMountain Standard Time \tUTC\u{2212}07\n\
MST \tMalaysia Standard Time \tUTC+08\n\
MUT \tMauritius Time \tUTC+04\n\
MVT \tMaldives Time \tUTC+05\n\
MYT \tMalaysia Time \tUTC+08\n\
NCT \tNew Caledonia Time \tUTC+11\n\
NDT \tNewfoundland Daylight Time \tUTC\u{2212}02:30\n\
NFT \tNorfolk Island Time \tUTC+11\n\
NOVT \tNovosibirsk Time \tUTC+07\n\
NPT \tNepal Time \tUTC+05:45\n\
NST \tNewfoundland Standard Time \tUTC\u{2212}03:30\n\
NT \tNewfoundland Time \tUTC\u{2212}03:30\n\
NUT \tNiue Time \tUTC\u{2212}11\n\
NZDT \tNew Zealand Daylight Time \tUTC+13\n\
NZST \tNew Zealand Standard Time \tUTC+12\n\
OMST \tOmsk Time \tUTC+06\n\
ORAT \tOral Time \tUTC+05\n\
PDT \tPacific Daylight Time \tUTC\u{2212}07\n\
PET \tPeru Time \tUTC\u{2212}05\n\
PETT \tKamchatka Time \tUTC+12\n\
PGT \tPapua New Guinea Time \tUTC+10\n\
PHOT \tPhoenix Island Time \tUTC+13\n\
PHT \tPhilippine Time \tUTC+08\n\
PHST \tPhilippine Standard Time \tUTC+08\n\
PKT \tPakistan Standard Time \tUTC+05\n\
PMDT \tSaint Pierre and Miquelon Daylight Time \tUTC\u{2212}02\n\
PMST \tSaint Pierre and Miquelon Standard Time \tUTC\u{2212}03\n\
PONT \tPohnpei Standard Time \tUTC+11\n\
PST \tPacific Standard Time \tUTC\u{2212}08\n\
PWT \tPalau Time \tUTC+09\n\
PYST \tParaguay Summer Time \tUTC\u{2212}03\n\
PYT \tParaguay Time \tUTC\u{2212}04\n\
RET \tReunion Time \tUTC+04\n\
ROTT \tRothera Research Station Time \tUTC\u{2212}03\n\
SAKT \tSakhalin Island Time \tUTC+11\n\
SAMT \tSamara Time \tUTC+04\n\
SAST \tSouth African Standard Time \tUTC+02\n\
SBT \tSolomon Islands Time \tUTC+11\n\
SCT \tSeychelles Time \tUTC+04\n\
SDT \tSamoa Daylight Time \tUTC\u{2212}10\n\
SGT \tSingapore Time \tUTC+08\n\
SLST \tSri Lanka Standard Time \tUTC+05:30\n\
SRET \tSrednekolymsk Time \tUTC+11\n\
SRT \tSuriname Time \tUTC\u{2212}03\n\
SST \tSamoa Standard Time \tUTC\u{2212}11\n\
SST \tSingapore Standard Time \tUTC+08\n\
SYOT \tShowa Station Time \tUTC+03\n\
TAHT \tTahiti Time \tUTC\u{2212}10\n\
THA \tThailand Standard Time \tUTC+07\n\
TFT \tFrench Southern and Antarctic Time \tUTC+05\n\
TJT \tTajikistan Time \tUTC+05\n\
TKT \tTokelau Time \tUTC+13\n\
TLT \tTimor Leste Time \tUTC+09\n\
TMT \tTurkmenistan Time \tUTC+05\n\
TRT \tTurkey Time \tUTC+03\n\
TOT \tTonga Time \tUTC+13\n\
TVT \tTuvalu Time \tUTC+12\n\
ULAST \tUlaanbaatar Summer Time \tUTC+09\n\
ULAT \tUlaanbaatar Standard Time \tUTC+08\n\
UTC \tCoordinated Universal Time \tUTC\u{b1}00\n\
UYST \tUruguay Summer Time \tUTC\u{2212}02\n\
UYT \tUruguay Standard Time \tUTC\u{2212}03\n\
UZT \tUzbekistan Time \tUTC+05\n\
VET \tVenezuelan Standard Time \tUTC\u{2212}04\n\
VLAT \tVladivostok Time \tUTC+10\n\
VOLT \tVolgograd Time \tUTC+03\n\
VOST \tVostok Station Time \tUTC+06\n\
VUT \tVanuatu Time \tUTC+11\n\
WAKT \tWake Island Time \tUTC+12\n\
WAST \tWest Africa Summer Time \tUTC+02\n\
WAT \tWest Africa Time \tUTC+01\n\
WEST \tWestern European Summer Time \tUTC+01\n\
WET \tWestern European Time \tUTC\u{b1}00\n\
WIB \tWestern Indonesian Time \tUTC+07\n\
WIT \tEastern Indonesian Time \tUTC+09\n\
WITA \tCentral Indonesia Time \tUTC+08\n\
WGST \tWest Greenland Summer Time \tUTC\u{2212}02\n\
WGT \tWest Greenland Time \tUTC\u{2212}03\n\
WST \tWestern Standard Time \tUTC+08\n\
YAKT \tYakutsk Time \tUTC+09\n\
YEKT \tYekaterinburg Time \tUTC+05\n\
";

} // verus!
